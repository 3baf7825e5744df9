//! Addresses that are given rather than discovered: absolute ones, and ones
//! written as a module's name, a `+`, and a hexadecimal offset into that module.

use vstd::prelude::*;
use vstd::std_specs::cmp::PartialEqSpecImpl;
use vstd::string::StrSliceExecFns;
use crate::error::SkipError;

verus! {

/// The value of one hexadecimal digit, in either case.
pub open spec fn hex_digit(c: char) -> Option<nat> {
    let code = c as u32;
    if 0x30 <= code <= 0x39 {
        Some((code - 0x30) as nat)
    } else if 0x41 <= code <= 0x46 {
        Some((code - 0x41 + 10) as nat)
    } else if 0x61 <= code <= 0x66 {
        Some((code - 0x61 + 10) as nat)
    } else {
        None
    }
}

/// Whether every character of `s` is a hexadecimal digit.
pub open spec fn all_hex(s: Seq<char>) -> bool {
    forall|i: int| 0 <= i < s.len() ==> (#[trigger] hex_digit(s[i])) is Some
}

/// The number that the digits `s` write in base 16, most significant digit first.
pub open spec fn hex_value(s: Seq<char>) -> nat
    decreases s.len(),
{
    if s.len() == 0 {
        0
    } else {
        16 * hex_value(s.drop_last()) + match hex_digit(s.last()) {
            Some(d) => d,
            None => 0,
        }
    }
}

/// What is left of `s` once one leading `+` sign, if there is one, is taken off.
pub open spec fn without_sign(s: Seq<char>) -> Seq<char> {
    if s.len() > 0 && s[0] == '+' {
        s.subrange(1, s.len() as int)
    } else {
        s
    }
}

/// The address that `s` denotes as a hexadecimal number: an optional `+`, then at
/// least one digit and nothing but digits, the whole no larger than an address
/// can be.
pub open spec fn parse_hex(s: Seq<char>) -> Option<usize> {
    let digits = without_sign(s);
    if digits.len() > 0 && all_hex(digits) && hex_value(digits) <= usize::MAX {
        Some(hex_value(digits) as usize)
    } else {
        None
    }
}

/// The value of a number is at least the value of each of its prefixes.
pub proof fn lemma_hex_value_prefix(s: Seq<char>, k: int)
    requires
        0 <= k <= s.len(),
    ensures
        hex_value(s.subrange(0, k)) <= hex_value(s),
    decreases s.len(),
{
    if k == s.len() {
        assert(s.subrange(0, k) =~= s);
    } else {
        lemma_hex_value_prefix(s.drop_last(), k);
        assert(s.drop_last().subrange(0, k) =~= s.subrange(0, k));
    }
}

fn digit_of(c: char) -> (digit: Option<usize>)
    ensures
        match digit {
            Some(d) => hex_digit(c) == Some(d as nat),
            None => hex_digit(c) is None,
        },
{
    let code: u32 = c as u32;
    if 0x30 <= code && code <= 0x39 {
        Some((code - 0x30) as usize)
    } else if 0x41 <= code && code <= 0x46 {
        Some((code - 0x41 + 10) as usize)
    } else if 0x61 <= code && code <= 0x66 {
        Some((code - 0x61 + 10) as usize)
    } else {
        None
    }
}

/// Reads a hexadecimal address: an optional `+`, then digits in either case.
pub fn read_hex(s: &str) -> (address: Option<usize>)
    ensures
        address == parse_hex(s@),
{
    let n: usize = s.unicode_len();
    let mut start: usize = 0;
    if n > 0 && s.get_char(0) == '+' {
        start = 1;
    }
    if start == n {
        return None;
    }
    let ghost digits = without_sign(s@);
    assert(digits =~= s@.subrange(start as int, n as int));
    let mut acc: usize = 0;
    let mut i: usize = start;
    while i < n
        invariant
            start <= i <= n,
            n == s@.len(),
            digits == s@.subrange(start as int, n as int),
            digits == without_sign(s@),
            acc == hex_value(digits.subrange(0, i - start)),
            all_hex(digits.subrange(0, i - start)),
        decreases n - i,
    {
        let ghost seen = digits.subrange(0, i - start);
        let ghost next = digits.subrange(0, i - start + 1);
        proof {
            assert(next.drop_last() =~= seen);
            lemma_hex_value_prefix(digits, i - start + 1);
        }
        let c = s.get_char(i);
        assert(digits[i - start] == c);
        let d = match digit_of(c) {
            Some(d) => d,
            None => {
                return None;
            },
        };
        assert(hex_value(next) == 16 * acc + d);
        let shifted = match acc.checked_mul(16) {
            Some(v) => v,
            None => {
                return None;
            },
        };
        acc = match shifted.checked_add(d) {
            Some(v) => v,
            None => {
                return None;
            },
        };
        proof {
            assert forall|j: int| 0 <= j < next.len() implies (#[trigger] hex_digit(next[j])) is Some by {
                if j < seen.len() {
                    assert(next[j] == seen[j]);
                }
            }
        }
        i = i + 1;
    }
    assert(digits.subrange(0, i - start) =~= digits);
    Some(acc)
}

/// Whether the first `+` of `s` stands at index `i`.
pub open spec fn is_split_at(s: Seq<char>, i: int) -> bool {
    &&& 0 <= i < s.len()
    &&& s[i] == '+'
    &&& forall|j: int| 0 <= j < i ==> s[j] != '+'
}

/// The index of the first `+` of `s`, where it has one.
pub open spec fn split_index(s: Seq<char>) -> Option<int> {
    if exists|i: int| is_split_at(s, i) {
        Some(choose|i: int| is_split_at(s, i))
    } else {
        None
    }
}

/// A text has at most one first `+`.
pub proof fn lemma_split_unique(s: Seq<char>, i: int)
    requires
        is_split_at(s, i),
    ensures
        split_index(s) == Some(i),
{
    let k = choose|k: int| is_split_at(s, k);
    if k < i {
        assert(s[k] != '+');
    } else if i < k {
        assert(s[i] != '+');
    }
}

/// A text without any `+` has no first one.
pub proof fn lemma_split_none(s: Seq<char>)
    requires
        forall|j: int| 0 <= j < s.len() ==> s[j] != '+',
    ensures
        split_index(s) is None,
{
    if exists|i: int| is_split_at(s, i) {
        let k = choose|k: int| is_split_at(s, k);
        assert(s[k] != '+');
    }
}

fn find_split(s: &str) -> (found: Option<usize>)
    ensures
        match found {
            Some(i) => split_index(s@) == Some(i as int),
            None => split_index(s@) is None,
        },
{
    let n: usize = s.unicode_len();
    let mut i: usize = 0;
    while i < n
        invariant
            i <= n,
            n == s@.len(),
            forall|j: int| 0 <= j < i ==> s@[j] != '+',
        decreases n - i,
    {
        if s.get_char(i) == '+' {
            proof {
                lemma_split_unique(s@, i as int);
            }
            return Some(i);
        }
        i = i + 1;
    }
    proof {
        lemma_split_none(s@);
    }
    None
}

/// The module name that the text `s` gives: what stands before its first `+`.
pub open spec fn module_part(s: Seq<char>) -> Option<Seq<char>> {
    match split_index(s) {
        Some(i) => Some(s.subrange(0, i)),
        None => None,
    }
}

/// The offset that the text `s` gives, still as text: what stands after its first `+`.
pub open spec fn offset_part(s: Seq<char>) -> Option<Seq<char>> {
    match split_index(s) {
        Some(i) => Some(s.subrange(i + 1, s.len() as int)),
        None => None,
    }
}

/// The offset that the text `s` gives, or the reason why it gives none.
pub open spec fn offset_of(s: Seq<char>) -> Result<usize, SkipError> {
    match offset_part(s) {
        None => Err(SkipError::InvalidRelativePointerSyntax),
        Some(digits) => match parse_hex(digits) {
            Some(offset) => Ok(offset),
            None => Err(SkipError::InvalidRelativePointerOffset),
        },
    }
}

/// An address inside a module, written as the module's name, a `+`, and the
/// offset from the module's base in hexadecimal: `game.exe+1A2B3C`.
#[derive(Debug)]
pub struct RelativePointer(pub String);

impl View for RelativePointer {
    type V = Seq<char>;

    open spec fn view(&self) -> Seq<char> {
        self.0@
    }
}

impl Clone for RelativePointer {
    fn clone(&self) -> (copy: Self)
        ensures
            copy@ == self@,
    {
        RelativePointer(self.0.clone())
    }
}

impl PartialEq for RelativePointer {
    fn eq(&self, other: &Self) -> (same: bool) {
        self.0 == other.0
    }
}

impl PartialEqSpecImpl for RelativePointer {
    open spec fn obeys_eq_spec() -> bool {
        true
    }

    open spec fn eq_spec(&self, other: &Self) -> bool {
        self@ == other@
    }
}

impl RelativePointer {
    /// The name of the module that the pointer is relative to. It fails where
    /// the text holds no `+`.
    pub fn module_name(&self) -> (name: Result<&str, SkipError>)
        ensures
            match module_part(self@) {
                Some(module) => name matches Ok(text) && text@ == module,
                None => name == Err::<&str, SkipError>(SkipError::InvalidRelativePointerSyntax),
            },
    {
        let text = self.0.as_str();
        match find_split(text) {
            Some(i) => Ok(text.substring_char(0, i)),
            None => Err(SkipError::InvalidRelativePointerSyntax),
        }
    }

    /// The offset from the module's base. It fails where the text holds no `+`,
    /// and where what follows the first `+` is no hexadecimal address.
    pub fn offset(&self) -> (offset: Result<usize, SkipError>)
        ensures
            offset == offset_of(self@),
    {
        let text = self.0.as_str();
        match find_split(text) {
            Some(i) => {
                let n = text.unicode_len();
                match read_hex(text.substring_char(i + 1, n)) {
                    Some(offset) => Ok(offset),
                    None => Err(SkipError::InvalidRelativePointerOffset),
                }
            },
            None => Err(SkipError::InvalidRelativePointerSyntax),
        }
    }
}

/// An address that is known not to be zero.
#[derive(Clone, Copy, Debug, PartialEq, Eq, Structural)]
pub struct NonNullPtr {
    address: usize,
}

impl NonNullPtr {
    #[verifier::type_invariant]
    spec fn not_null(self) -> bool {
        self.address != 0
    }

    /// The address itself.
    pub closed spec fn addr(self) -> usize {
        self.address
    }

    /// Accepts every address but zero.
    pub fn new(address: usize) -> (pointer: Option<NonNullPtr>)
        ensures
            address == 0 ==> pointer is None,
            address != 0 ==> (pointer matches Some(p) && p.addr() == address),
    {
        if address == 0 {
            None
        } else {
            Some(NonNullPtr { address })
        }
    }

    /// The address as a number.
    pub fn as_usize(&self) -> (address: usize)
        ensures
            address == self.addr(),
            address != 0,
    {
        proof {
            use_type_invariant(self);
        }
        self.address
    }
}

/// A given address: absolute, or relative to a module of the running process.
#[derive(Debug)]
pub enum PointerTypeConfig {
    Absolute(NonNullPtr),
    Relative(RelativePointer),
}

/// What a [`PointerTypeConfig`] holds, as plain values.
pub ghost enum PointerTypeView {
    Absolute(usize),
    Relative(Seq<char>),
}

impl View for PointerTypeConfig {
    type V = PointerTypeView;

    open spec fn view(&self) -> PointerTypeView {
        match self {
            PointerTypeConfig::Absolute(p) => PointerTypeView::Absolute(p.addr()),
            PointerTypeConfig::Relative(r) => PointerTypeView::Relative(r@),
        }
    }
}

impl Clone for PointerTypeConfig {
    fn clone(&self) -> (copy: Self)
        ensures
            copy@ == self@,
    {
        match self {
            PointerTypeConfig::Absolute(p) => PointerTypeConfig::Absolute(*p),
            PointerTypeConfig::Relative(r) => PointerTypeConfig::Relative(r.clone()),
        }
    }
}

impl PartialEq for PointerTypeConfig {
    fn eq(&self, other: &Self) -> (same: bool) {
        match (self, other) {
            (PointerTypeConfig::Absolute(p), PointerTypeConfig::Absolute(q)) => p.as_usize()
                == q.as_usize(),
            (PointerTypeConfig::Relative(r), PointerTypeConfig::Relative(s)) => r.0 == s.0,
            _ => false,
        }
    }
}

impl PartialEqSpecImpl for PointerTypeConfig {
    open spec fn obeys_eq_spec() -> bool {
        true
    }

    open spec fn eq_spec(&self, other: &Self) -> bool {
        self@ == other@
    }
}

impl PointerTypeView {
    /// The module whose base address is needed to resolve this pointer, where one is.
    pub open spec fn module_needed(self) -> Result<Option<Seq<char>>, SkipError> {
        match self {
            PointerTypeView::Absolute(_) => Ok(None),
            PointerTypeView::Relative(s) => match module_part(s) {
                Some(module) => Ok(Some(module)),
                None => Err(SkipError::InvalidRelativePointerSyntax),
            },
        }
    }

    /// The address that this pointer resolves to, given what the lookup of the
    /// module it needs came to: the module's base address, or why there is none.
    pub open spec fn resolve(self, module_base: Result<usize, SkipError>) -> Result<usize, SkipError> {
        match self {
            PointerTypeView::Absolute(address) => Ok(address),
            PointerTypeView::Relative(s) => if module_part(s) is None {
                Err(SkipError::InvalidRelativePointerSyntax)
            } else {
                match module_base {
                    Err(e) => Err(e),
                    Ok(base) => match offset_of(s) {
                        Err(e) => Err(e),
                        Ok(offset) => if base + offset == 0 || base + offset > usize::MAX {
                            Err(SkipError::InvalidRelativePointer)
                        } else {
                            Ok((base + offset) as usize)
                        },
                    },
                }
            },
        }
    }
}

impl PointerTypeConfig {
    /// The name of the module that the host has to look up before this pointer
    /// can be resolved: none for an absolute address.
    pub fn required_module(&self) -> (module: Result<Option<&str>, SkipError>)
        ensures
            match self@.module_needed() {
                Ok(Some(name)) => module matches Ok(Some(text)) && text@ == name,
                Ok(None) => module matches Ok(None),
                Err(e) => module matches Err(f) && f == e,
            },
    {
        match self {
            PointerTypeConfig::Absolute(_) => Ok(None),
            PointerTypeConfig::Relative(r) => match r.module_name() {
                Ok(name) => Ok(Some(name)),
                Err(e) => Err(e),
            },
        }
    }

    /// Resolves the pointer to an address that is not zero. `module_base` is what
    /// the lookup of [`Self::required_module`] came to; an absolute address does
    /// not read it.
    pub fn get_non_null_ptr(&self, module_base: Result<usize, SkipError>) -> (pointer: Result<
        NonNullPtr,
        SkipError,
    >)
        ensures
            match self@.resolve(module_base) {
                Ok(address) => pointer matches Ok(p) && p.addr() == address,
                Err(e) => pointer matches Err(f) && f == e,
            },
    {
        match self {
            PointerTypeConfig::Absolute(p) => Ok(*p),
            PointerTypeConfig::Relative(r) => {
                if let Err(e) = r.module_name() {
                    return Err(e);
                }
                let base = match module_base {
                    Ok(base) => base,
                    Err(e) => {
                        return Err(e);
                    },
                };
                let offset = match r.offset() {
                    Ok(offset) => offset,
                    Err(e) => {
                        return Err(e);
                    },
                };
                let sum = match base.checked_add(offset) {
                    Some(sum) => sum,
                    None => {
                        return Err(SkipError::InvalidRelativePointer);
                    },
                };
                match NonNullPtr::new(sum) {
                    Some(p) => Ok(p),
                    None => Err(SkipError::InvalidRelativePointer),
                }
            },
        }
    }
}

} // verus!
