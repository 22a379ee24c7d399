//! Global identifiers of catalog items and their textual form.

use vstd::prelude::*;

verus! {

/// The identifier of a catalog item.
#[derive(Clone, Copy, Debug, PartialEq, Eq, Structural)]
pub enum GlobalId {
    /// A system item, built into the catalog.
    System(u64),
    /// A user item.
    User(u64),
    /// An item that lives only for the duration of one query.
    Transient(u64),
}

/// The decimal digit `d` as a character.
pub open spec fn digit_char(d: nat) -> char {
    seq!['0', '1', '2', '3', '4', '5', '6', '7', '8', '9'][d as int]
}

/// The decimal representation of `n`, without leading zeros.
pub open spec fn decimal(n: nat) -> Seq<char>
    decreases n,
{
    if n < 10 {
        seq![digit_char(n)]
    } else {
        decimal(n / 10).push(digit_char(n % 10))
    }
}

/// The text of an identifier: a one-letter kind prefix and the number.
pub open spec fn id_text(id: GlobalId) -> Seq<char> {
    match id {
        GlobalId::System(x) => seq!['s'] + decimal(x as nat),
        GlobalId::User(x) => seq!['u'] + decimal(x as nat),
        GlobalId::Transient(x) => seq!['t'] + decimal(x as nat),
    }
}

fn digit_str(d: u64) -> (s: &'static str)
    requires
        d < 10,
    ensures
        s@ == seq![digit_char(d as nat)],
{
    proof {
        reveal_strlit("0");
        reveal_strlit("1");
        reveal_strlit("2");
        reveal_strlit("3");
        reveal_strlit("4");
        reveal_strlit("5");
        reveal_strlit("6");
        reveal_strlit("7");
        reveal_strlit("8");
        reveal_strlit("9");
    }
    if d == 0 {
        "0"
    } else if d == 1 {
        "1"
    } else if d == 2 {
        "2"
    } else if d == 3 {
        "3"
    } else if d == 4 {
        "4"
    } else if d == 5 {
        "5"
    } else if d == 6 {
        "6"
    } else if d == 7 {
        "7"
    } else if d == 8 {
        "8"
    } else {
        "9"
    }
}

/// Appends the decimal representation of `n` to `out`.
pub fn push_decimal(n: u64, out: &mut String)
    ensures
        final(out)@ == old(out)@ + decimal(n as nat),
    decreases n,
{
    if n >= 10 {
        push_decimal(n / 10, out);
    }
    out.append(digit_str(n % 10));
    proof {
        if n < 10 {
            assert(n % 10 == n);
        }
    }
}

impl GlobalId {
    /// The text of this identifier, as written into built-in tables.
    pub fn to_string(&self) -> (s: String)
        ensures
            s@ == id_text(*self),
    {
        proof {
            reveal_strlit("s");
            reveal_strlit("u");
            reveal_strlit("t");
        }
        match self {
            GlobalId::System(x) => {
                let mut s = String::from_str("s");
                push_decimal(*x, &mut s);
                s
            },
            GlobalId::User(x) => {
                let mut s = String::from_str("u");
                push_decimal(*x, &mut s);
                s
            },
            GlobalId::Transient(x) => {
                let mut s = String::from_str("t");
                push_decimal(*x, &mut s);
                s
            },
        }
    }
}

proof fn lemma_digit_char_injective(d: nat, e: nat)
    requires
        d < 10,
        e < 10,
        digit_char(d) == digit_char(e),
    ensures
        d == e,
{
    let digits = seq!['0', '1', '2', '3', '4', '5', '6', '7', '8', '9'];
    assert(digits[0] == '0' && digits[1] == '1' && digits[2] == '2' && digits[3] == '3'
        && digits[4] == '4' && digits[5] == '5' && digits[6] == '6' && digits[7] == '7'
        && digits[8] == '8' && digits[9] == '9');
}

proof fn lemma_decimal_nonempty(n: nat)
    ensures
        decimal(n).len() >= 1,
        n >= 10 ==> decimal(n).len() >= 2,
    decreases n,
{
    if n >= 10 {
        lemma_decimal_nonempty(n / 10);
    }
}

/// Two numbers with the same decimal representation are equal.
pub proof fn lemma_decimal_injective(a: nat, b: nat)
    requires
        decimal(a) == decimal(b),
    ensures
        a == b,
    decreases a,
{
    lemma_decimal_nonempty(a);
    lemma_decimal_nonempty(b);
    if a < 10 && b < 10 {
        assert(decimal(a)[0] == digit_char(a));
        assert(decimal(b)[0] == digit_char(b));
        lemma_digit_char_injective(a, b);
    } else if a >= 10 && b >= 10 {
        let da = decimal(a);
        let db = decimal(b);
        assert(da.last() == digit_char(a % 10));
        assert(db.last() == digit_char(b % 10));
        lemma_digit_char_injective(a % 10, b % 10);
        assert(da.drop_last() =~= decimal(a / 10));
        assert(db.drop_last() =~= decimal(b / 10));
        lemma_decimal_injective(a / 10, b / 10);
    } else {
        assert(decimal(a).len() != decimal(b).len());
    }
}

spec fn kind_char(id: GlobalId) -> char {
    match id {
        GlobalId::System(_) => 's',
        GlobalId::User(_) => 'u',
        GlobalId::Transient(_) => 't',
    }
}

spec fn id_number(id: GlobalId) -> u64 {
    match id {
        GlobalId::System(x) => x,
        GlobalId::User(x) => x,
        GlobalId::Transient(x) => x,
    }
}

/// Distinct identifiers are written as distinct texts, so the text of an
/// identifier in a built-in table names exactly one item.
pub proof fn lemma_id_text_injective(a: GlobalId, b: GlobalId)
    requires
        id_text(a) == id_text(b),
    ensures
        a == b,
{
    let ta = id_text(a);
    let tb = id_text(b);
    assert(ta =~= seq![kind_char(a)] + decimal(id_number(a) as nat));
    assert(tb =~= seq![kind_char(b)] + decimal(id_number(b) as nat));
    assert(ta[0] == kind_char(a));
    assert(tb[0] == kind_char(b));
    assert(ta.subrange(1, ta.len() as int) =~= decimal(id_number(a) as nat));
    assert(tb.subrange(1, tb.len() as int) =~= decimal(id_number(b) as nat));
    lemma_decimal_injective(id_number(a) as nat, id_number(b) as nat);
}

} // verus!
