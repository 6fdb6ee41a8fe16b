//! The emulated Windows API: per-DLL state and import resolution.

pub mod kernel32;

use vstd::prelude::*;

verus! {

/// How an executable names a symbol it imports from a DLL.
#[derive(Debug)]
pub enum ImportSymbol<'a> {
    Name(&'a str),
    Ordinal(u32),
}

/// The decimal digit character for `d` (0 to 9).
pub open spec fn digit_char(d: nat) -> char {
    (d + 48) as char
}

/// The decimal representation of `n`, without leading zeros.
pub open spec fn decimal(n: nat) -> Seq<char>
    decreases n,
{
    if n < 10 {
        seq![digit_char(n)]
    } else {
        decimal(n / 10) + seq![digit_char(n % 10)]
    }
}

/// The number that a string of decimal digits denotes, most significant digit first.
pub open spec fn digits_value(s: Seq<char>) -> int
    decreases s.len(),
{
    if s.len() == 0 {
        0
    } else {
        digits_value(s.drop_last()) * 10 + (s.last() as int - 48)
    }
}

/// The decimal form of a number reads back as that number: it is a non-empty
/// string of the digits '0' to '9' whose value is `n`, and it starts with '0'
/// only for 0 itself.
pub proof fn lemma_decimal_reads_back(n: nat)
    ensures
        decimal(n).len() >= 1,
        forall|i: int| 0 <= i < decimal(n).len() ==> 48 <= #[trigger] (decimal(n)[i] as int) <= 57,
        digits_value(decimal(n)) == n,
        n > 0 ==> decimal(n)[0] as int != 48,
    decreases n,
{
    if n < 10 {
        assert(decimal(n)[0] as int == n + 48);
        assert(decimal(n).drop_last() =~= Seq::<char>::empty());
        assert(digits_value(Seq::<char>::empty()) == 0);
    } else {
        lemma_decimal_reads_back(n / 10);
        let d = decimal(n / 10);
        let c = digit_char(n % 10);
        assert(decimal(n) == d + seq![c]);
        assert((d + seq![c]).drop_last() =~= d);
        assert(c as int == n % 10 + 48);
        assert(d[0] == decimal(n)[0]);
        assert forall|i: int| 0 <= i < decimal(n).len() implies 48 <= #[trigger] (decimal(n)[i] as int) <= 57 by {
            if i < d.len() {
                assert(decimal(n)[i] == d[i]);
            }
        }
        assert(digits_value(decimal(n)) == digits_value(d) * 10 + (c as int - 48));
        assert((n / 10) * 10 + n % 10 == n);
    }
}

/// The one-character string holding the decimal digit `d`.
fn digit_str(d: u32) -> (s: &'static str)
    requires
        d < 10,
    ensures
        s@ == seq![digit_char(d as nat)],
{
    proof {
        reveal_strlit("0");
        reveal_strlit("1");
        reveal_strlit("2");
        reveal_strlit("3");
        reveal_strlit("4");
        reveal_strlit("5");
        reveal_strlit("6");
        reveal_strlit("7");
        reveal_strlit("8");
        reveal_strlit("9");
    }
    match d {
        0 => "0",
        1 => "1",
        2 => "2",
        3 => "3",
        4 => "4",
        5 => "5",
        6 => "6",
        7 => "7",
        8 => "8",
        _ => "9",
    }
}

/// Appends the decimal representation of `n` to `s`.
fn push_decimal(s: &mut String, n: u32)
    ensures
        final(s)@ == old(s)@ + decimal(n as nat),
    decreases n,
{
    if n >= 10 {
        push_decimal(s, n / 10);
    }
    s.append(digit_str(n % 10));
    assert(s@ =~= old(s)@ + decimal(n as nat)) by {
        if n >= 10 {
            assert(decimal(n as nat) == decimal((n / 10) as nat) + seq![digit_char((n % 10) as nat)]);
        }
    }
}

/// `n` in decimal, without leading zeros.
fn u32_to_decimal(n: u32) -> (s: String)
    ensures
        s@ == decimal(n as nat),
{
    let mut s = String::new();
    push_decimal(&mut s, n);
    assert(s@ =~= decimal(n as nat));
    s
}

impl<'a> ImportSymbol<'a> {
    /// The symbol as it is printed: the name itself, or the ordinal in decimal.
    pub fn to_string(&self) -> (s: String)
        ensures
            match self {
                ImportSymbol::Name(name) => s@ == name@,
                ImportSymbol::Ordinal(ord) => s@ == decimal(*ord as nat),
            },
    {
        match self {
            ImportSymbol::Name(name) => (*name).to_owned(),
            ImportSymbol::Ordinal(ord) => u32_to_decimal(*ord),
        }
    }
}

/// Maps a DLL "api set" alias to the underlying DLL.
/// https://learn.microsoft.com/en-us/windows/win32/apiindex/api-set-loader-operation
pub fn apiset(name: &str) -> (r: Option<&'static str>)
    ensures
        r is Some <==> name@ == "api-ms-win-crt-runtime-l1-1-0.dll"@,
        r matches Some(dll) ==> dll@ == "ucrtbase.dll"@,
{
    let name = name.to_owned();
    let alias = "api-ms-win-crt-runtime-l1-1-0.dll".to_owned();
    if name == alias {
        Some("ucrtbase.dll")
    } else {
        None
    }
}

/// State of the emulated system DLLs.
pub struct State {
    pub kernel32: kernel32::State,
}

impl State {
    pub fn new(kernel32: kernel32::State) -> (s: State)
        ensures
            s.kernel32 == kernel32,
    {
        State { kernel32 }
    }
}

} // verus!
