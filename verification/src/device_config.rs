//! The description of a device on the command line.
use vstd::prelude::*;
use vstd::string::*;

verus! {

/// A kind of device.
#[derive(Clone, Copy, Debug, PartialEq, Eq, Structural)]
pub enum VirtIODeviceEnum {
    VirtIOBlock,
    VirtIONet,
}

/// A device and the file behind it.
#[derive(Debug)]
pub struct DeviceConfig {
    pub dev_type: VirtIODeviceEnum,
    pub path: String,
}

/// The first colon of a text from `i` on, or its end.
pub open spec fn colon_from(s: Seq<char>, i: int) -> int
    decreases s.len() - i,
{
    if i < 0 || i >= s.len() {
        s.len() as int
    } else if s[i] == ':' {
        i
    } else {
        colon_from(s, i + 1)
    }
}

proof fn lemma_colon_from(s: Seq<char>, i: int)
    requires
        0 <= i <= s.len(),
    ensures
        i <= colon_from(s, i) <= s.len(),
    decreases s.len() - i,
{
    if i < s.len() && s[i] != ':' {
        lemma_colon_from(s, i + 1);
    }
}

/// The kind of device that a word names.
pub open spec fn device_named(word: Seq<char>) -> Option<VirtIODeviceEnum> {
    if word == "virtio-block"@ {
        Some(VirtIODeviceEnum::VirtIOBlock)
    } else if word == "virtio-network"@ {
        Some(VirtIODeviceEnum::VirtIONet)
    } else {
        None
    }
}

/// What a text stands for: a kind of device, a colon and the path of a file, up to the end or the
/// next colon. What comes after that is ignored.
pub open spec fn device_config_of(
    s: Seq<char>,
) -> Result<(VirtIODeviceEnum, Seq<char>), Seq<char>> {
    let first = colon_from(s, 0);
    let word = s.take(first);
    match device_named(word) {
        None => Err("Unknown device type: "@ + word),
        Some(kind) => if first >= s.len() {
            Err("Need input a device path."@)
        } else {
            Ok((kind, s.subrange(first + 1, colon_from(s, first + 1))))
        },
    }
}

fn find_colon(s: &str, n: usize, from: usize) -> (r: usize)
    requires
        n == s@.len(),
        from <= n,
    ensures
        r == colon_from(s@, from as int),
        from <= r <= n,
{
    let mut i: usize = from;
    while i < n
        invariant
            from <= i <= n,
            n == s@.len(),
            colon_from(s@, from as int) == colon_from(s@, i as int),
        decreases n - i,
    {
        if s.get_char(i) == ':' {
            return i;
        }
        i = i + 1;
    }
    n
}

impl DeviceConfig {
    /// Reads a description such as `virtio-block:disk.img`.
    pub fn from_str(s: &str) -> (r: Result<DeviceConfig, String>)
        ensures
            match device_config_of(s@) {
                Ok((kind, path)) => r is Ok && r->Ok_0.dev_type == kind && r->Ok_0.path@ == path,
                Err(text) => r is Err && r->Err_0@ == text,
            },
    {
        let n: usize = s.unicode_len();
        let first: usize = find_colon(s, n, 0);
        let word: &str = s.substring_char(0, first);
        assert(word@ =~= s@.take(first as int));
        let name: String = word.to_owned();
        let block: String = "virtio-block".to_owned();
        let network: String = "virtio-network".to_owned();
        let dev_type = if name == block {
            VirtIODeviceEnum::VirtIOBlock
        } else if name == network {
            VirtIODeviceEnum::VirtIONet
        } else {
            let mut text: String = "Unknown device type: ".to_owned();
            text.append(word);
            return Err(text);
        };
        if first >= n {
            return Err("Need input a device path.".to_owned());
        }
        proof {
            lemma_colon_from(s@, first + 1);
        }
        let end: usize = find_colon(s, n, first + 1);
        Ok(DeviceConfig { dev_type, path: s.substring_char(first + 1, end).to_owned() })
    }
}

/// A path without a colon is read back whole.
pub proof fn law_device_path(path: Seq<char>)
    requires
        !path.contains(':'),
    ensures
        device_config_of("virtio-block:"@ + path) == Ok::<(VirtIODeviceEnum, Seq<char>), Seq<char>>(
            (VirtIODeviceEnum::VirtIOBlock, path),
        ),
{
    reveal_strlit("virtio-block:");
    reveal_strlit("virtio-block");
    reveal_strlit("virtio-network");
    let s = "virtio-block:"@ + path;
    assert(colon_from(s, 0) == 12) by {
        reveal_with_fuel(colon_from, 14);
    }
    assert(s.take(12) =~= "virtio-block"@);
    lemma_no_colon(s, path, 13);
    assert(s.subrange(13, s.len() as int) =~= path);
}

proof fn lemma_no_colon(s: Seq<char>, path: Seq<char>, i: int)
    requires
        13 <= i <= s.len(),
        s.len() == path.len() + 13,
        forall|j: int| 13 <= j < s.len() ==> s[j] == path[j - 13],
        !path.contains(':'),
    ensures
        colon_from(s, i) == s.len(),
    decreases s.len() - i,
{
    if i < s.len() {
        assert(path.contains(path[i - 13]));
        lemma_no_colon(s, path, i + 1);
    }
}

} // verus!
