use vstd::prelude::*;

verus! {

/// Which part of the body carries a laminar or a turbulent boundary layer.
#[derive(Debug, Clone, Copy, PartialEq, Eq, Structural)]
pub enum BoundaryLayer {
    LaminarLaminar,
    LaminarTurbulent,
    TurbulentTurbulent,
}

/// The canonical three-character code of a boundary-layer choice.
pub open spec fn code_of(b: BoundaryLayer) -> Seq<char> {
    match b {
        BoundaryLayer::LaminarLaminar => seq!['L', '/', 'L'],
        BoundaryLayer::LaminarTurbulent => seq!['L', '/', 'T'],
        BoundaryLayer::TurbulentTurbulent => seq!['T', '/', 'T'],
    }
}

/// The choice whose canonical code is exactly `u`, if any.
pub open spec fn parse_canonical(u: Seq<char>) -> Option<BoundaryLayer> {
    if u == code_of(BoundaryLayer::LaminarLaminar) {
        Some(BoundaryLayer::LaminarLaminar)
    } else if u == code_of(BoundaryLayer::LaminarTurbulent) {
        Some(BoundaryLayer::LaminarTurbulent)
    } else if u == code_of(BoundaryLayer::TurbulentTurbulent) {
        Some(BoundaryLayer::TurbulentTurbulent)
    } else {
        None
    }
}

/// ASCII upper case of one character: `a`..`z` move to `A`..`Z`, the rest stay.
pub open spec fn ascii_upper_char(c: char) -> char {
    if 'a' <= c && c <= 'z' {
        ((c as u32) - 32) as char
    } else {
        c
    }
}

pub open spec fn all_ascii(s: Seq<char>) -> bool {
    forall|i: int| 0 <= i < s.len() ==> (#[trigger] s[i] as u32) < 128
}

/// What `str::to_uppercase` returns for `s`.
pub uninterp spec fn upper_of(s: Seq<char>) -> Seq<char>;

/// Relies on `str::to_uppercase`: the Unicode upper case of `s`, which depends
/// on the characters alone and, on ASCII text, is the ASCII upper case.
#[verifier::external_body]
fn uppercase(s: &str) -> (r: String)
    ensures
        r@ == upper_of(s@),
        all_ascii(s@) ==> r@ == s@.map_values(|c: char| ascii_upper_char(c)),
{
    s.to_uppercase()
}

impl BoundaryLayer {
    /// Reads a code that is already in upper case: `L/L`, `L/T` or `T/T`.
    pub fn from_canonical(u: &str) -> (r: Option<BoundaryLayer>)
        ensures
            r == parse_canonical(u@),
    {
        let n = u.unicode_len();
        if n != 3 {
            return None;
        }
        let a = u.get_char(0);
        let b = u.get_char(1);
        let c = u.get_char(2);
        proof {
            assert(u@ =~= seq![a, b, c]);
        }
        if b != '/' {
            None
        } else if a == 'L' && c == 'L' {
            Some(BoundaryLayer::LaminarLaminar)
        } else if a == 'L' && c == 'T' {
            Some(BoundaryLayer::LaminarTurbulent)
        } else if a == 'T' && c == 'T' {
            Some(BoundaryLayer::TurbulentTurbulent)
        } else {
            None
        }
    }

    /// Reads a boundary-layer code in any letter case.
    pub fn from_str(s: &str) -> (r: Option<BoundaryLayer>)
        ensures
            r == parse_canonical(upper_of(s@)),
            all_ascii(s@) ==> r == parse_canonical(s@.map_values(|c: char| ascii_upper_char(c))),
    {
        let u = uppercase(s);
        BoundaryLayer::from_canonical(u.as_str())
    }

    /// The canonical code: `L/L`, `L/T` or `T/T`.
    pub fn to_str(&self) -> (r: &'static str)
        ensures
            r@ == code_of(*self),
    {
        proof {
            reveal_strlit("L/L");
            reveal_strlit("L/T");
            reveal_strlit("T/T");
        }
        match self {
            BoundaryLayer::LaminarLaminar => "L/L",
            BoundaryLayer::LaminarTurbulent => "L/T",
            BoundaryLayer::TurbulentTurbulent => "T/T",
        }
    }
}

/// Whether `code` is a boundary-layer code in any letter case.
pub fn validate_boundary_layer(code: &str) -> (r: bool)
    ensures
        r == parse_canonical(upper_of(code@)) is Some,
{
    BoundaryLayer::from_str(code).is_some()
}

/// Reading the canonical code of a choice, in upper case as written, gives the
/// choice back; the code is plain ASCII, so `from_str` reads it through the
/// ASCII upper case.
pub proof fn lemma_code_round_trip(b: BoundaryLayer)
    ensures
        all_ascii(code_of(b)),
        code_of(b).map_values(|c: char| ascii_upper_char(c)) == code_of(b),
        parse_canonical(code_of(b)) == Some(b),
{
    assert(code_of(b).map_values(|c: char| ascii_upper_char(c)) =~= code_of(b));
}

} // verus!
