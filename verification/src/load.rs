//! The symbols of a loaded program.
use vstd::prelude::*;

verus! {

/// A symbol as plain values: its name and its address.
pub type Symbol = (Seq<char>, u64);

/// Symbols in the order of their table.
pub type Symbols = Seq<Symbol>;

/// The last of the first `n` symbols with an address.
pub open spec fn symbol_at(symbols: Seq<Symbol>, addr: u64, n: int) -> Option<int>
    decreases n,
{
    if n <= 0 {
        None
    } else if symbols[n - 1].1 == addr {
        Some(n - 1)
    } else {
        symbol_at(symbols, addr, n - 1)
    }
}

/// The last of the first `n` symbols with a name.
pub open spec fn symbol_named(symbols: Seq<Symbol>, name: Seq<char>, n: int) -> Option<int>
    decreases n,
{
    if n <= 0 {
        None
    } else if symbols[n - 1].0 == name {
        Some(n - 1)
    } else {
        symbol_named(symbols, name, n - 1)
    }
}

/// Of the first `n` symbols the one with the greatest address that is not above `addr`; the last
/// of several.
pub open spec fn symbol_below(symbols: Seq<Symbol>, addr: u64, n: int) -> Option<int>
    decreases n,
{
    if n <= 0 {
        None
    } else {
        let before = symbol_below(symbols, addr, n - 1);
        if symbols[n - 1].1 <= addr && (before is None || symbols[before->0].1 <= symbols[n
            - 1].1) {
            Some(n - 1)
        } else {
            before
        }
    }
}

/// The symbol whose range an address lies in starts at or before it, and none starts between.
pub proof fn law_symbol_range(symbols: Seq<Symbol>, addr: u64, n: int)
    requires
        0 <= n <= symbols.len(),
    ensures
        match symbol_below(symbols, addr, n) {
            Some(i) => {
                &&& 0 <= i < n
                &&& symbols[i].1 <= addr
                &&& forall|j: int|
                    0 <= j < n && (#[trigger] symbols[j]).1 <= addr ==> symbols[j].1
                        <= symbols[i].1
            },
            None => forall|j: int| 0 <= j < n ==> (#[trigger] symbols[j]).1 > addr,
        },
    decreases n,
{
    if n > 0 {
        law_symbol_range(symbols, addr, n - 1);
    }
}

/// The symbol that is found at an address is there, and no later one is; without one there is none.
pub proof fn law_symbol_at(symbols: Seq<Symbol>, addr: u64, n: int)
    requires
        0 <= n <= symbols.len(),
    ensures
        match symbol_at(symbols, addr, n) {
            Some(i) => 0 <= i < n && symbols[i].1 == addr && forall|j: int|
                i < j < n ==> (#[trigger] symbols[j]).1 != addr,
            None => forall|j: int| 0 <= j < n ==> (#[trigger] symbols[j]).1 != addr,
        },
    decreases n,
{
    if n > 0 && symbols[n - 1].1 != addr {
        law_symbol_at(symbols, addr, n - 1);
    }
}

/// The symbol that is found by a name has it, and no later one has; without one there is none.
pub proof fn law_symbol_named(symbols: Seq<Symbol>, name: Seq<char>, n: int)
    requires
        0 <= n <= symbols.len(),
    ensures
        match symbol_named(symbols, name, n) {
            Some(i) => 0 <= i < n && symbols[i].0 == name && forall|j: int|
                i < j < n ==> (#[trigger] symbols[j]).0 != name,
            None => forall|j: int| 0 <= j < n ==> (#[trigger] symbols[j]).0 != name,
        },
    decreases n,
{
    if n > 0 && symbols[n - 1].0 != name {
        law_symbol_named(symbols, name, n - 1);
    }
}

/// The functions of a program.
pub struct SymTab {
    pub symbols: Vec<(String, u64)>,
}

impl View for SymTab {
    type V = Seq<Symbol>;

    open spec fn view(&self) -> Seq<Symbol> {
        Seq::new(self.symbols@.len(), |i: int| (self.symbols@[i].0@, self.symbols@[i].1))
    }
}

impl SymTab {
    /// A table of functions by name and address.
    pub fn from(symbols: &[(String, u64)]) -> (r: SymTab)
        ensures
            r@.len() == symbols@.len(),
            forall|i: int|
                0 <= i < symbols@.len() ==> #[trigger] r@[i] == (symbols@[i].0@, symbols@[i].1),
    {
        let mut table: Vec<(String, u64)> = Vec::new();
        let mut i: usize = 0;
        while i < symbols.len()
            invariant
                i <= symbols.len(),
                table@.len() == i,
                forall|j: int|
                    0 <= j < i ==> (#[trigger] table@[j]).0@ == symbols@[j].0@ && table@[j].1
                        == symbols@[j].1,
            decreases symbols.len() - i,
        {
            table.push((symbols[i].0.clone(), symbols[i].1));
            i = i + 1;
        }
        SymTab { symbols: table }
    }

    /// The name of the function that starts at an address.
    pub fn func_name_by_addr(&self, addr: u64) -> (r: Option<&String>)
        ensures
            match symbol_at(self@, addr, self@.len() as int) {
                Some(i) => r is Some && r->0@ == self@[i].0,
                None => r is None,
            },
    {
        let mut n: usize = self.symbols.len();
        while n > 0
            invariant
                n <= self.symbols.len(),
                symbol_at(self@, addr, self@.len() as int) == symbol_at(self@, addr, n as int),
            decreases n,
        {
            if self.symbols[n - 1].1 == addr {
                return Some(&self.symbols[n - 1].0);
            }
            n = n - 1;
        }
        None
    }

    /// The name of the function whose range an address lies in: a function reaches to the next
    /// one.
    pub fn func_name_in_addr_range(&self, addr: u64) -> (r: Option<&String>)
        ensures
            match symbol_below(self@, addr, self@.len() as int) {
                Some(i) => r is Some && r->0@ == self@[i].0,
                None => r is None,
            },
    {
        let mut best: Option<usize> = None;
        let mut n: usize = 0;
        while n < self.symbols.len()
            invariant
                n <= self.symbols.len(),
                match symbol_below(self@, addr, n as int) {
                    Some(i) => best is Some && best->0 == i && i < n,
                    None => best is None,
                },
            decreases self.symbols.len() - n,
        {
            let here: u64 = self.symbols[n].1;
            let better = here <= addr && match best {
                None => true,
                Some(i) => self.symbols[i].1 <= here,
            };
            if better {
                best = Some(n);
            }
            n = n + 1;
        }
        match best {
            Some(i) => Some(&self.symbols[i].0),
            None => None,
        }
    }

    /// The address of a function.
    pub fn func_addr_by_name(&self, name: &str) -> (r: Option<u64>)
        ensures
            match symbol_named(self@, name@, self@.len() as int) {
                Some(i) => r == Some(self@[i].1),
                None => r is None,
            },
    {
        let wanted: String = name.to_owned();
        let mut n: usize = self.symbols.len();
        while n > 0
            invariant
                n <= self.symbols.len(),
                wanted@ == name@,
                symbol_named(self@, name@, self@.len() as int) == symbol_named(
                    self@,
                    name@,
                    n as int,
                ),
            decreases n,
        {
            if self.symbols[n - 1].0 == wanted {
                return Some(self.symbols[n - 1].1);
            }
            n = n - 1;
        }
        None
    }
}

/// A table that may be missing, as plain values.
pub open spec fn symtab_view(symtab: Option<SymTab>) -> Option<Seq<Symbol>> {
    match symtab {
        Some(t) => Some(t@),
        None => None,
    }
}

} // verus!
