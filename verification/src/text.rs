//! Text produced for callers: decimal identifiers, stored-name decoding
//! and the `"[ID: ..] .."` display form of a player.

use vstd::prelude::*;

verus! {

/// The character of one decimal digit.
pub open spec fn dec_digit(d: int) -> char
    recommends
        0 <= d < 10,
{
    ((48 + d) as u8) as char
}

/// Decimal representation of a non-negative number, most significant
/// digit first, with no leading zeroes.
pub open spec fn dec_rep(n: int) -> Seq<char>
    recommends
        n >= 0,
    decreases n,
{
    if n < 10 {
        seq![dec_digit(n)]
    } else {
        dec_rep(n / 10).push(dec_digit(n % 10))
    }
}

/// Relies on `String::push`: appends exactly the one character.
#[verifier::external_body]
pub(crate) fn push_char(s: &mut String, c: char)
    ensures
        final(s)@ == old(s)@.push(c),
{
    s.push(c);
}

fn push_digit(s: &mut String, d: u8)
    requires
        d < 10,
    ensures
        final(s)@ == old(s)@.push(dec_digit(d as int)),
{
    push_char(s, (48 + d) as char);
}

/// The decimal text of `n`.
pub fn dec_u16(n: u16) -> (r: String)
    ensures
        r@ == dec_rep(n as int),
    decreases n,
{
    if n < 10 {
        let mut s = String::new();
        push_digit(&mut s, n as u8);
        proof {
            assert(Seq::<char>::empty().push(dec_digit(n as int)) =~= seq![dec_digit(n as int)]);
        }
        s
    } else {
        let mut s = dec_u16(n / 10);
        push_digit(&mut s, (n % 10) as u8);
        s
    }
}

/// The stored bytes of a name: everything before the first NUL.
pub open spec fn take_until_nul(s: Seq<u8>) -> Seq<u8>
    decreases s.len(),
{
    if s.len() == 0 {
        s
    } else if s[0] == 0 {
        Seq::empty()
    } else {
        seq![s[0]] + take_until_nul(s.skip(1))
    }
}

/// The host stores names as single bytes; each is one character.
pub open spec fn latin1(s: Seq<u8>) -> Seq<char> {
    s.map_values(|b: u8| b as char)
}

/// Up to the first NUL, a stored name is exactly its prefix.
pub proof fn lemma_take_until_nul(s: Seq<u8>, j: int)
    requires
        0 <= j <= s.len(),
        forall|i: int| 0 <= i < j ==> s[i] != 0,
        j < s.len() ==> s[j] == 0,
    ensures
        take_until_nul(s) == s.subrange(0, j),
    decreases s.len(),
{
    if s.len() == 0 {
        assert(take_until_nul(s) =~= s.subrange(0, j));
    } else if s[0] == 0 {
        assert(take_until_nul(s) =~= s.subrange(0, j));
    } else {
        lemma_take_until_nul(s.skip(1), j - 1);
        assert(take_until_nul(s) =~= s.subrange(0, j));
    }
}

/// The text of the first `n` stored name bytes.
pub fn latin1_string(v: &Vec<u8>, n: usize) -> (r: String)
    requires
        n <= v@.len(),
    ensures
        r@ == latin1(v@.subrange(0, n as int)),
{
    let mut s = String::new();
    let mut i: usize = 0;
    while i < n
        invariant
            i <= n <= v@.len(),
            s@ == latin1(v@.subrange(0, i as int)),
        decreases n - i,
    {
        push_char(&mut s, v[i] as char);
        proof {
            assert(latin1(v@.subrange(0, i + 1)) =~= latin1(v@.subrange(0, i as int)).push(
                v@[i as int] as char,
            ));
        }
        i += 1;
    }
    s
}

/// View of an optional name.
pub open spec fn opt_text(n: Option<String>) -> Option<Seq<char>> {
    match n {
        Some(s) => Some(s@),
        None => None,
    }
}

/// The display form of a player: `"[ID: <id>] <name>"`, with `-1` for an
/// unknown identifier and `noname` for an unknown name.
pub open spec fn spec_name_with_id(id: Option<u16>, name: Option<Seq<char>>) -> Seq<char> {
    "[ID: "@ + (match id {
        Some(i) => dec_rep(i as int),
        None => "-1"@,
    }) + "] "@ + (match name {
        Some(n) => n,
        None => "noname"@,
    })
}

/// Build the display form of a player from its resolved identity.
pub fn name_with_id_text(id: Option<u16>, name: Option<String>) -> (r: String)
    ensures
        r@ == spec_name_with_id(id, opt_text(name)),
{
    let ghost name0 = name;
    let mut s = String::from_str("[ID: ");
    match id {
        Some(i) => {
            let d = dec_u16(i);
            s.append(d.as_str());
        },
        None => {
            s.append("-1");
        },
    }
    s.append("] ");
    match name {
        Some(n) => {
            s.append(n.as_str());
        },
        None => {
            s.append("noname");
        },
    }
    proof {
        assert(s@ =~= spec_name_with_id(id, opt_text(name0)));
    }
    s
}

} // verus!
