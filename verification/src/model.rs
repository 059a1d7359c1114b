//! The mathematical model of the registry: a map from account identifier to
//! the ordered sequence of values recorded for it, and the transitions that
//! `Contract::new` and `Contract::add_password` perform on it.

use vstd::prelude::*;

verus! {

/// A string the durable store's codec can frame: a character encodes to at
/// most four UTF-8 bytes, so any string of at most this many characters fits
/// the codec's 32-bit length prefix.
pub open spec fn str_fits_codec(s: Seq<char>) -> bool {
    s.len() <= 0x3FFF_FFFF
}

/// A sequence of strings the durable store's codec can frame: its length fits
/// the codec's 32-bit length prefix and every element fits on its own.
pub open spec fn list_fits_codec(vs: Seq<Seq<char>>) -> bool {
    &&& vs.len() <= 0xFFFF_FFFF
    &&& forall|i: int| 0 <= i < vs.len() ==> str_fits_codec(#[trigger] vs[i])
}

/// The values recorded for an account: the sequence stored under the
/// account's key, or the empty sequence when the key is absent. A read never
/// distinguishes a key that was never written from one holding an empty
/// sequence.
pub open spec fn passwords_for(
    entries: Map<Seq<char>, Seq<Seq<char>>>,
    account: Seq<char>,
) -> Seq<Seq<char>> {
    if entries.contains_key(account) {
        entries[account]
    } else {
        Seq::empty()
    }
}

/// The entries after one value is appended to the given account's sequence,
/// every other account left untouched.
pub open spec fn with_appended(
    entries: Map<Seq<char>, Seq<Seq<char>>>,
    account: Seq<char>,
    value: Seq<char>,
) -> Map<Seq<char>, Seq<Seq<char>>> {
    entries.insert(account, passwords_for(entries, account).push(value))
}

/// The entries after a whole sequence of values is appended to one account,
/// one at a time, in order.
pub open spec fn with_all_appended(
    entries: Map<Seq<char>, Seq<Seq<char>>>,
    account: Seq<char>,
    values: Seq<Seq<char>>,
) -> Map<Seq<char>, Seq<Seq<char>>>
    decreases values.len(),
{
    if values.len() == 0 {
        entries
    } else {
        with_all_appended(with_appended(entries, account, values[0]), account, values.skip(1))
    }
}

/// Append monotonicity: after any sequence of appends to one account, that
/// account's recorded values are its prior values followed by the appended
/// ones, in append order. Nothing is ever truncated, reordered or removed.
pub proof fn lemma_append_monotonic(
    entries: Map<Seq<char>, Seq<Seq<char>>>,
    account: Seq<char>,
    values: Seq<Seq<char>>,
)
    ensures
        passwords_for(with_all_appended(entries, account, values), account)
            == passwords_for(entries, account) + values,
    decreases values.len(),
{
    if values.len() == 0 {
        assert(passwords_for(entries, account) + values =~= passwords_for(entries, account));
    } else {
        let once = with_appended(entries, account, values[0]);
        lemma_append_monotonic(once, account, values.skip(1));
        assert(passwords_for(once, account) == passwords_for(entries, account).push(values[0]));
        assert(passwords_for(entries, account).push(values[0]) + values.skip(1)
            =~= passwords_for(entries, account) + values);
    }
}

/// Appending to one account never changes what is recorded for any other
/// account. In particular, an account that no append ever named still reads
/// as it did before — as empty, when the entries started empty.
pub proof fn lemma_other_accounts_unchanged(
    entries: Map<Seq<char>, Seq<Seq<char>>>,
    account: Seq<char>,
    values: Seq<Seq<char>>,
    other: Seq<char>,
)
    requires
        other != account,
    ensures
        passwords_for(with_all_appended(entries, account, values), other)
            == passwords_for(entries, other),
    decreases values.len(),
{
    if values.len() > 0 {
        lemma_other_accounts_unchanged(
            with_appended(entries, account, values[0]),
            account,
            values.skip(1),
            other,
        );
    }
}

/// Absent-key equivalence: starting from a freshly initialized registry, an
/// account that no append ever named reads as the empty sequence — the same
/// as a present account holding an empty sequence would.
pub proof fn lemma_never_appended_reads_empty(
    account: Seq<char>,
    values: Seq<Seq<char>>,
    other: Seq<char>,
)
    requires
        other != account,
    ensures
        passwords_for(with_all_appended(Map::empty(), account, values), other)
            == Seq::<Seq<char>>::empty(),
{
    lemma_other_accounts_unchanged(Map::empty(), account, values, other);
}

} // verus!
