use vstd::prelude::*;
use crate::text::{
    chars_of, decimal, decimal_value, is_digit, is_number, lemma_decimal_round_trip,
    push_decimal,
};

verus! {

/// A version of the server's REST interface: major, minor and patch number.
#[derive(Clone, Copy, Debug, PartialEq, Eq, Structural)]
pub struct ApiVersion {
    pub major: u64,
    pub minor: u64,
    pub patch: u64,
}

impl View for ApiVersion {
    type V = (nat, nat, nat);

    open spec fn view(&self) -> (nat, nat, nat) {
        (self.major as nat, self.minor as nat, self.patch as nat)
    }
}

/// Versions are ordered number by number, the major number first.
pub open spec fn version_ge(a: (nat, nat, nat), b: (nat, nat, nat)) -> bool {
    a.0 > b.0 || (a.0 == b.0 && (a.1 > b.1 || (a.1 == b.1 && a.2 >= b.2)))
}

/// The pieces of `s` between the occurrences of `sep`; a text without `sep` is one piece.
pub open spec fn split(s: Seq<char>, sep: char) -> Seq<Seq<char>>
    decreases s.len(),
{
    if s.len() == 0 {
        seq![Seq::<char>::empty()]
    } else {
        let head = split(s.drop_last(), sep);
        if s.last() == sep {
            head.push(Seq::<char>::empty())
        } else {
            head.update(head.len() - 1, head.last().push(s.last()))
        }
    }
}

/// Whether `s` is a decimal numeral of a number that fits in 64 bits.
pub open spec fn is_component(s: Seq<char>) -> bool {
    is_number(s) && decimal_value(s) <= u64::MAX
}

/// What a version text denotes: three dot-separated decimal numerals give the three
/// numbers; any other text gives nothing.
pub open spec fn parse_version(s: Seq<char>) -> Option<(nat, nat, nat)> {
    let parts = split(s, '.');
    if parts.len() == 3 && is_component(parts[0]) && is_component(parts[1]) && is_component(
        parts[2],
    ) {
        Some((decimal_value(parts[0]), decimal_value(parts[1]), decimal_value(parts[2])))
    } else {
        None
    }
}

/// The text of a version: its three numbers in decimal, joined by dots.
pub open spec fn version_text(v: (nat, nat, nat)) -> Seq<char> {
    decimal(v.0) + seq!['.'] + decimal(v.1) + seq!['.'] + decimal(v.2)
}

// A piece that may still grow into a component: digits only, within 64 bits.
spec fn is_open_component(s: Seq<char>) -> bool {
    (forall|i: int| 0 <= i < s.len() ==> is_digit(#[trigger] s[i])) && decimal_value(s)
        <= u64::MAX
}

// Every finished piece is a component and the last one may still become one.
spec fn well_formed_so_far(parts: Seq<Seq<char>>) -> bool {
    &&& parts.len() >= 1
    &&& forall|j: int| 0 <= j < parts.len() - 1 ==> is_component(#[trigger] parts[j])
    &&& is_open_component(parts.last())
}

proof fn lemma_split_nonempty(s: Seq<char>, sep: char)
    ensures
        split(s, sep).len() >= 1,
    decreases s.len(),
{
    if s.len() > 0 {
        lemma_split_nonempty(s.drop_last(), sep);
    }
}

// A piece without the separator, put behind a text, lengthens the text's last piece.
proof fn lemma_split_append(head: Seq<char>, tail: Seq<char>, sep: char)
    requires
        forall|i: int| 0 <= i < tail.len() ==> tail[i] != sep,
    ensures
        split(head + tail, sep) == split(head, sep).update(
            split(head, sep).len() - 1,
            split(head, sep).last() + tail,
        ),
    decreases tail.len(),
{
    lemma_split_nonempty(head, sep);
    let parts = split(head, sep);
    if tail.len() == 0 {
        assert(head + tail =~= head);
    } else {
        lemma_split_append(head, tail.drop_last(), sep);
        assert((head + tail).drop_last() =~= head + tail.drop_last());
        assert((parts.last() + tail.drop_last()).push(tail.last()) =~= parts.last() + tail);
    }
}

/// Versions are totally ordered: of two, one is at least the other; two that are at
/// least each other are the same; and the order carries over a version in between.
pub proof fn lemma_version_order(a: (nat, nat, nat), b: (nat, nat, nat), c: (nat, nat, nat))
    ensures
        version_ge(a, b) || version_ge(b, a),
        version_ge(a, b) && version_ge(b, a) ==> a == b,
        version_ge(a, b) && version_ge(b, c) ==> version_ge(a, c),
{
}

/// Reading the text of a version gives the version back.
pub proof fn lemma_parse_version_text(v: (nat, nat, nat))
    requires
        v.0 <= u64::MAX,
        v.1 <= u64::MAX,
        v.2 <= u64::MAX,
    ensures
        parse_version(version_text(v)) == Some(v),
{
    let a = decimal(v.0);
    let b = decimal(v.1);
    let c = decimal(v.2);
    let dot = seq!['.'];
    let none = Seq::<char>::empty();
    lemma_decimal_round_trip(v.0);
    lemma_decimal_round_trip(v.1);
    lemma_decimal_round_trip(v.2);
    lemma_split_append(none, a, '.');
    assert(split(a, '.') =~= seq![a]) by {
        assert(none + a =~= a);
    }
    assert((a + dot).drop_last() =~= a);
    lemma_split_append(a + dot, b, '.');
    assert(split(a + dot + b, '.') =~= seq![a, b]);
    assert((a + dot + b + dot).drop_last() =~= a + dot + b);
    lemma_split_append(a + dot + b + dot, c, '.');
    assert(split(version_text(v), '.') =~= seq![a, b, c]);
}

impl ApiVersion {
    pub fn new(major: u64, minor: u64, patch: u64) -> (v: ApiVersion)
        ensures
            v@ == (major as nat, minor as nat, patch as nat),
    {
        ApiVersion { major, minor, patch }
    }

    /// Reads a version from its text. Each of the three dot-separated parts is read as
    /// a number, so that "1.9.0" comes before "1.10.0".
    pub fn parse(s: &str) -> (r: Option<ApiVersion>)
        ensures
            match r {
                Some(v) => parse_version(s@) == Some(v@),
                None => parse_version(s@) is None,
            },
    {
        let chars = chars_of(s);
        let mut done: Vec<u64> = Vec::new();
        let mut cur: u64 = 0;
        let mut started: bool = false;
        let mut ok: bool = true;
        let mut i: usize = 0;
        while i < chars.len()
            invariant
                i <= chars.len(),
                ok == well_formed_so_far(split(chars@.take(i as int), '.')),
                ok ==> done.len() == split(chars@.take(i as int), '.').len() - 1,
                ok ==> forall|j: int|
                    0 <= j < done.len() ==> done[j] == decimal_value(
                        #[trigger] split(chars@.take(i as int), '.')[j],
                    ),
                ok ==> cur == decimal_value(split(chars@.take(i as int), '.').last()),
                ok ==> started == (split(chars@.take(i as int), '.').last().len() > 0),
            decreases chars.len() - i,
        {
            let c = chars[i];
            let code: u32 = c as u32;
            let ghost before = split(chars@.take(i as int), '.');
            let ghost after = split(chars@.take(i + 1), '.');
            proof {
                lemma_split_nonempty(chars@.take(i as int), '.');
                assert(chars@.take(i + 1).drop_last() =~= chars@.take(i as int));
            }
            if c == '.' {
                proof {
                    // A dot closes the last piece and opens an empty one.
                    if well_formed_so_far(after) {
                        assert(is_component(after[before.len() - 1]));
                        assert forall|j: int| 0 <= j < before.len() - 1 implies is_component(
                            #[trigger] before[j],
                        ) by {
                            assert(is_component(after[j]));
                        }
                    }
                }
                if ok && started {
                    done.push(cur);
                    cur = 0;
                    started = false;
                } else {
                    ok = false;
                }
            } else if 48 <= code && code <= 57 {
                let d: u64 = (code - 48) as u64;
                let ghost grown = before.last().push(c);
                proof {
                    // A digit lengthens the last piece.
                    assert(grown.drop_last() =~= before.last());
                    if is_open_component(grown) {
                        assert forall|k: int| 0 <= k < before.last().len() implies is_digit(
                            #[trigger] before.last()[k],
                        ) by {
                            assert(is_digit(grown[k]));
                        }
                    }
                    if well_formed_so_far(after) {
                        assert forall|j: int| 0 <= j < before.len() - 1 implies is_component(
                            #[trigger] before[j],
                        ) by {
                            assert(is_component(after[j]));
                        }
                    }
                }
                if ok {
                    let next = match cur.checked_mul(10) {
                        Some(m) => m.checked_add(d),
                        None => None,
                    };
                    match next {
                        Some(v) => {
                            cur = v;
                            started = true;
                        },
                        None => {
                            ok = false;
                        },
                    }
                }
            } else {
                proof {
                    // Any other character spoils the last piece for good.
                    let grown = before.last().push(c);
                    assert(!is_digit(grown[grown.len() - 1]));
                }
                ok = false;
            }
            i = i + 1;
        }
        proof {
            assert(chars@.take(i as int) =~= chars@);
        }
        if ok && started && done.len() == 2 {
            Some(ApiVersion { major: done[0], minor: done[1], patch: cur })
        } else {
            None
        }
    }

    /// Whether this version is `other` or a later one.
    pub fn at_least(&self, other: &ApiVersion) -> (r: bool)
        ensures
            r == version_ge(self@, other@),
    {
        self.major > other.major || (self.major == other.major && (self.minor > other.minor || (
        self.minor == other.minor && self.patch >= other.patch)))
    }

    /// The version as text, such as "1.14.0".
    pub fn render(&self) -> (r: String)
        ensures
            r@ == version_text(self@),
    {
        let mut out = String::new();
        push_decimal(&mut out, self.major);
        out.push('.');
        push_decimal(&mut out, self.minor);
        out.push('.');
        push_decimal(&mut out, self.patch);
        out
    }
}

} // verus!
