//! Identifiers: games, maps, teams, zones and cards are identified by UUIDs,
//! held here as their 128-bit value.

use vstd::prelude::*;

verus! {

/// The lowercase hexadecimal digit for `d` (`d < 16`).
pub open spec fn hex_digit_char(d: nat) -> char {
    if d < 10 {
        (48 + d) as char
    } else {
        (87 + d) as char
    }
}

/// The last `n` hexadecimal digits of `x`, most significant first, zero-padded.
pub open spec fn hex_digits(x: nat, n: nat) -> Seq<char>
    decreases n,
{
    if n == 0 {
        Seq::empty()
    } else {
        hex_digits(x / 16, (n - 1) as nat).push(hex_digit_char(x % 16))
    }
}

/// The hyphenated lowercase text of a UUID: 8-4-4-4-12 hexadecimal digits of its
/// big-endian 128-bit value.
pub open spec fn uuid_text(id: u128) -> Seq<char> {
    let h = hex_digits(id as nat, 32);
    h.subrange(0, 8) + seq!['-'] + h.subrange(8, 12) + seq!['-'] + h.subrange(12, 16) + seq!['-']
        + h.subrange(16, 20) + seq!['-'] + h.subrange(20, 32)
}

proof fn lemma_hex_digits_len(x: nat, n: nat)
    ensures
        hex_digits(x, n).len() == n,
    decreases n,
{
    if n > 0 {
        lemma_hex_digits_len(x / 16, (n - 1) as nat);
    }
}

/// The text of a UUID has 36 characters: 32 digits and 4 hyphens.
pub proof fn uuid_text_len(id: u128)
    ensures
        uuid_text(id).len() == 36,
{
    lemma_hex_digits_len(id as nat, 32);
}

/// Text of a UUID, through `uuid::Uuid::from_u128` and its `Display` impl, which
/// writes the hyphenated lowercase form (uuid's `fmt.rs`: `format_hyphenated` with
/// lowercase digits). The contract claims that text exactly.
#[verifier::external_body]
pub(crate) fn uuid_string(id: u128) -> (s: String)
    ensures
        s@ == uuid_text(id),
{
    uuid::Uuid::from_u128(id).to_string()
}

/// Things the game keeps in lists and finds again by their UUID.
pub trait Identified {
    spec fn key(&self) -> u128;

    fn id(&self) -> (r: u128)
        ensures
            r == self.key(),
    ;
}

/// `s` without the items whose id is `id`, others kept in order.
pub open spec fn without_key<T: Identified>(s: Seq<T>, id: u128) -> Seq<T>
    decreases s.len(),
{
    if s.len() == 0 {
        Seq::empty()
    } else {
        let r = without_key(s.drop_last(), id);
        if s.last().key() == id {
            r
        } else {
            r.push(s.last())
        }
    }
}

/// Drops from a list every item with the given id, keeping the rest in order
/// (a zone removed, a card played).
pub fn remove_with_id<T: Identified>(items: Vec<T>, id: u128) -> (kept: Vec<T>)
    ensures
        kept@ == without_key(items@, id),
{
    let ghost orig = items@;
    let n = items.len();
    let mut rest = items;
    let mut kept: Vec<T> = Vec::new();
    let mut i: usize = 0;
    while i < n
        invariant
            n == orig.len(),
            i <= n,
            rest@ == orig.subrange(i as int, n as int),
            kept@ == without_key(orig.subrange(0, i as int), id),
        decreases n - i,
    {
        let x = rest.remove(0);
        assert(orig.subrange(0, i + 1).drop_last() =~= orig.subrange(0, i as int));
        assert(orig.subrange(0, i + 1).last() == x);
        if x.id() != id {
            kept.push(x);
        }
        assert(rest@ =~= orig.subrange(i + 1, n as int));
        i = i + 1;
    }
    assert(orig.subrange(0, n as int) =~= orig);
    kept
}

/// After removal no item has the id, and every item kept was in the list.
pub proof fn removal_drops_exactly_that_id<T: Identified>(s: Seq<T>, id: u128)
    ensures
        forall|j: int| 0 <= j < without_key(s, id).len() ==> (#[trigger] without_key(s, id)[j]).key() != id,
        forall|j: int| 0 <= j < without_key(s, id).len() ==> s.contains(#[trigger] without_key(s, id)[j]),
        forall|j: int| 0 <= j < s.len() && (#[trigger] s[j]).key() != id ==> without_key(s, id).contains(s[j]),
    decreases s.len(),
{
    if s.len() > 0 {
        let p = s.drop_last();
        removal_drops_exactly_that_id(p, id);
        let r = without_key(p, id);
        assert forall|j: int| 0 <= j < without_key(s, id).len() implies s.contains(#[trigger] without_key(s, id)[j]) by {
            if j < r.len() {
                let k = choose|k: int| 0 <= k < p.len() && p[k] == r[j];
                assert(s[k] == p[k]);
            } else {
                assert(s[s.len() - 1] == s.last());
            }
        }
        assert forall|j: int| 0 <= j < s.len() && (#[trigger] s[j]).key() != id implies without_key(s, id).contains(s[j]) by {
            if j < s.len() - 1 {
                assert(p[j] == s[j]);
                let k = choose|k: int| 0 <= k < r.len() && r[k] == p[j];
                assert(without_key(s, id)[k] == s[j]);
            } else {
                assert(without_key(s, id)[r.len() as int] == s[j]);
            }
        }
    }
}

/// Removing an id that no item has leaves the list as it was; so adding an item
/// with a fresh id and removing it again gives back the list.
pub proof fn add_then_remove_restores<T: Identified>(s: Seq<T>, x: T)
    requires
        forall|j: int| 0 <= j < s.len() ==> (#[trigger] s[j]).key() != x.key(),
    ensures
        without_key(s, x.key()) == s,
        without_key(s.push(x), x.key()) == s,
    decreases s.len(),
{
    if s.len() > 0 {
        let p = s.drop_last();
        assert forall|j: int| 0 <= j < p.len() implies (#[trigger] p[j]).key() != x.key() by {
            assert(p[j] == s[j]);
        }
        add_then_remove_restores(p, x);
        assert(p.push(s.last()) =~= s);
    }
    assert(s.push(x).drop_last() =~= s);
}

} // verus!
