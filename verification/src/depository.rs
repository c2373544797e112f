use vstd::prelude::*;

use crate::error::DepoError;
use crate::item::DepositoryItem;
use crate::reader::Reader;
use crate::text::{lower_of, lowercase, str_eq, trim_of, trimmed};

verus! {

/// Holds when some element of `items` carries the identity `code`.
pub open spec fn has_code<T: DepositoryItem>(items: Seq<T>, code: Seq<char>) -> bool {
    exists|i: int| 0 <= i < items.len() && items[i].spec_code() == code
}

/// Holds when `i` is the last position in `items` that carries `code`.
pub open spec fn is_last_code_match<T: DepositoryItem>(
    items: Seq<T>,
    code: Seq<char>,
    i: int,
) -> bool {
    &&& 0 <= i < items.len()
    &&& items[i].spec_code() == code
    &&& forall|j: int| i < j < items.len() ==> items[j].spec_code() != code
}

/// The sequence after a swap-with-last removal at position `i`: the last
/// element moves into the hole and the length shrinks by one.
pub open spec fn swap_removed<T>(items: Seq<T>, i: int) -> Seq<T> {
    items.update(i, items.last()).drop_last()
}

/// Holds when a reader's stored name matches a sought name: the stored name
/// is trimmed first, and the two sides are compared lowercased.
pub open spec fn name_matches(stored: Seq<char>, sought: Seq<char>) -> bool {
    lower_of(trim_of(stored)) == lower_of(sought)
}

/// Holds when `i` is the first position in `readers` whose name matches
/// `sought`.
pub open spec fn is_first_name_match(readers: Seq<Reader>, sought: Seq<char>, i: int) -> bool {
    &&& 0 <= i < readers.len()
    &&& name_matches(readers[i].name@, sought)
    &&& forall|j: int| 0 <= j < i ==> !name_matches(readers[j].name@, sought)
}

/// Relates a depository collection before and after an identity-based
/// removal aimed at `code`: the last occurrence is swap-removed, or nothing
/// changes when the identity is absent.
pub open spec fn remove_rel<T: DepositoryItem>(
    items0: Seq<T>,
    items1: Seq<T>,
    code: Seq<char>,
) -> bool {
    if has_code(items0, code) {
        exists|i: int| is_last_code_match(items0, code, i) && items1 == swap_removed(items0, i)
    } else {
        items1 == items0
    }
}

/// Relates the readers and a depository collection before and after a
/// successful borrow transfer of `item` to the reader at position `i`: that
/// reader's own-kind list grows by `item` and nothing else about any reader
/// changes, while the depository loses its last occurrence of the item's
/// identity.
pub open spec fn borrow_transfer_ok<T: DepositoryItem>(
    readers0: Seq<Reader>,
    readers1: Seq<Reader>,
    items0: Seq<T>,
    items1: Seq<T>,
    item: T,
    i: int,
) -> bool {
    &&& 0 <= i < readers0.len()
    &&& readers1.len() == readers0.len()
    &&& forall|k: int| 0 <= k < readers0.len() && k != i ==> readers1[k] == readers0[k]
    &&& T::borrowed_of(readers1[i]) == T::borrowed_of(readers0[i]).push(item)
    &&& T::rest_of_reader_unchanged(readers0[i], readers1[i])
    &&& remove_rel(items0, items1, item.spec_code())
}

/// Appends an item at the end of a depository collection; no duplicate
/// check is made.
pub fn add_item<T: DepositoryItem>(items: &mut Vec<T>, item: T)
    ensures
        final(items)@ == old(items)@.push(item),
{
    items.push(item);
}

/// Enumerates the collection in its current order as
/// `(display index, title, year)` rows, where the display index is exactly
/// the position plus one. The collection is not changed.
pub fn list_items<T: DepositoryItem>(items: &Vec<T>) -> (listing: Vec<(usize, String, i32)>)
    ensures
        listing@.len() == items@.len(),
        forall|i: int|
            0 <= i < items@.len() ==> {
                &&& (#[trigger] listing@[i]).0 as int == i + 1
                &&& listing@[i].1@ == items@[i].spec_title()
                &&& listing@[i].2 as int == items@[i].spec_year()
            },
{
    let mut listing: Vec<(usize, String, i32)> = Vec::new();
    let mut i: usize = 0;
    while i < items.len()
        invariant
            i <= items@.len(),
            listing@.len() == i as int,
            forall|k: int|
                0 <= k < i as int ==> {
                    &&& (#[trigger] listing@[k]).0 as int == k + 1
                    &&& listing@[k].1@ == items@[k].spec_title()
                    &&& listing@[k].2 as int == items@[k].spec_year()
                },
        decreases items@.len() - i,
    {
        let title = items[i].get_title().clone();
        let year = items[i].get_year();
        listing.push((i + 1, title, year));
        i = i + 1;
    }
    listing
}

/// Returns the item at a zero-based position, or `None` when the position
/// lies outside the collection; an out-of-range position never faults.
pub fn find_item_by_id<T: DepositoryItem>(items: &Vec<T>, item_id: usize) -> (found: Option<&T>)
    ensures
        match found {
            Some(item) => item_id < items@.len() && *item == items@[item_id as int],
            None => item_id >= items@.len(),
        },
{
    if item_id < items.len() {
        Some(&items[item_id])
    } else {
        None
    }
}

/// Scans the collection from the back and swap-removes the first element
/// whose identity code equals the target's; the relative order of what
/// remains is not preserved. When the identity is absent the collection is
/// left exactly as it was, and `false` reports that nothing was removed.
#[verifier::loop_isolation(false)]
pub fn remove_depository_item<T: DepositoryItem>(items: &mut Vec<T>, item_to_remove: &T) -> (removed:
    bool)
    ensures
        removed == has_code(old(items)@, item_to_remove.spec_code()),
        remove_rel(old(items)@, final(items)@, item_to_remove.spec_code()),
        !has_code(old(items)@, item_to_remove.spec_code()) ==> final(items)@ == old(items)@,
        forall|i: int|
            is_last_code_match(old(items)@, item_to_remove.spec_code(), i) ==> final(items)@
                == swap_removed(old(items)@, i),
{
    let ghost items0 = items@;
    let ghost code = item_to_remove.spec_code();
    let mut i: usize = items.len();
    while i > 0
        invariant
            i <= items@.len(),
            items@ == items0,
            forall|j: int| i as int <= j < items0.len() ==> items0[j].spec_code() != code,
        decreases i,
    {
        i = i - 1;
        let this_code = items[i].get_isbn_code();
        let target_code = item_to_remove.get_isbn_code();
        if str_eq(this_code.as_str(), target_code.as_str()) {
            items.swap_remove(i);
            proof {
                assert(is_last_code_match(items0, code, i as int));
                assert(items@ == swap_removed(items0, i as int));
                assert forall|i2: int| is_last_code_match(items0, code, i2) implies items@
                    == swap_removed(items0, i2) by {
                    if i2 < i as int {
                        assert(items0[i as int].spec_code() == code);
                        assert(false);
                    }
                    if i2 > i as int {
                        assert(items0[i2].spec_code() != code);
                        assert(false);
                    }
                }
            }
            return true;
        }
    }
    false
}

/// Looks the reader up by case-insensitive name match (first match wins),
/// then moves the item: it is removed from the depository collection by its
/// identity code and appended to that reader's own-kind borrowed list. When
/// no reader matches, nothing at all changes and `ReaderNotFound` is
/// reported.
#[verifier::loop_isolation(false)]
pub fn borrow_item_for_reader<T: DepositoryItem>(
    readers: &mut Vec<Reader>,
    selected_item: T,
    selected_reader_name: String,
    items: &mut Vec<T>,
) -> (r: Result<(), DepoError>)
    ensures
        r is Ok <==> exists|i: int|
            is_first_name_match(old(readers)@, selected_reader_name@, i),
        forall|i: int|
            is_first_name_match(old(readers)@, selected_reader_name@, i)
                ==> borrow_transfer_ok(
                old(readers)@,
                final(readers)@,
                old(items)@,
                final(items)@,
                selected_item,
                i,
            ),
        r is Err ==> {
            &&& r == Err::<(), DepoError>(DepoError::ReaderNotFound)
            &&& final(readers)@ == old(readers)@
            &&& final(items)@ == old(items)@
        },
{
    let ghost readers0 = readers@;
    let ghost items0 = items@;
    let sought = lowercase(selected_reader_name.as_str());
    let mut i: usize = 0;
    while i < readers.len()
        invariant
            readers@ == readers0,
            items@ == items0,
            i <= readers0.len(),
            sought@ == lower_of(selected_reader_name@),
            forall|j: int| 0 <= j < i as int ==> !name_matches(readers0[j].name@, selected_reader_name@),
        decreases readers0.len() - i,
    {
        let stored = trimmed(readers[i].name.as_str());
        let lowered = lowercase(stored.as_str());
        if str_eq(lowered.as_str(), sought.as_str()) {
            proof {
                assert(is_first_name_match(readers0, selected_reader_name@, i as int));
            }
            remove_depository_item(items, &selected_item);
            selected_item.borrow_for_reader(&mut readers[i]);
            proof {
                assert forall|i2: int|
                    is_first_name_match(readers0, selected_reader_name@, i2) implies borrow_transfer_ok(
                    readers0,
                    readers@,
                    items0,
                    items@,
                    selected_item,
                    i2,
                ) by {
                    if i2 < i as int {
                        assert(name_matches(readers0[i2].name@, selected_reader_name@));
                        assert(false);
                    }
                    if i2 > i as int {
                        assert(!name_matches(readers0[i as int].name@, selected_reader_name@));
                        assert(false);
                    }
                }
            }
            return Ok(());
        }
        i = i + 1;
    }
    Err(DepoError::ReaderNotFound)
}

/// Holds when at most one element of `items` carries the identity `code`:
/// any two positions that carry it coincide.
pub open spec fn code_unique<T: DepositoryItem>(items: Seq<T>, code: Seq<char>) -> bool {
    forall|p: int, q: int|
        0 <= p < items.len() && 0 <= q < items.len() && items[p].spec_code() == code
            && items[q].spec_code() == code ==> p == q
}

/// Law: a successful borrow transfer is atomic with respect to the
/// depository and the readers. When the transferred item's identity stood in
/// the depository (once) and in no reader's own-kind list, then afterwards it
/// is absent from the depository and present in exactly one reader's
/// own-kind list: the matched reader's.
pub proof fn lemma_borrow_transfer_atomic<T: DepositoryItem>(
    readers0: Seq<Reader>,
    readers1: Seq<Reader>,
    items0: Seq<T>,
    items1: Seq<T>,
    item: T,
    i: int,
)
    requires
        borrow_transfer_ok(readers0, readers1, items0, items1, item, i),
        has_code(items0, item.spec_code()),
        code_unique(items0, item.spec_code()),
        forall|k: int|
            0 <= k < readers0.len() ==> !has_code(
                #[trigger] T::borrowed_of(readers0[k]),
                item.spec_code(),
            ),
    ensures
        !has_code(items1, item.spec_code()),
        has_code(T::borrowed_of(readers1[i]), item.spec_code()),
        forall|k: int|
            0 <= k < readers1.len() && k != i ==> !has_code(
                #[trigger] T::borrowed_of(readers1[k]),
                item.spec_code(),
            ),
{
    let code = item.spec_code();
    let j = choose|j: int| is_last_code_match(items0, code, j) && items1 == swap_removed(items0, j);
    assert(is_last_code_match(items0, code, j) && items1 == swap_removed(items0, j));
    assert forall|k: int| 0 <= k < items1.len() implies items1[k].spec_code() != code by {
        assert(items1.len() == items0.len() - 1);
        if k == j {
            assert(items1[k] == items0[items0.len() - 1]);
            assert(items0.len() - 1 != j);
        } else {
            assert(items1[k] == items0[k]);
        }
    }
    let n = T::borrowed_of(readers0[i]).len();
    assert(T::borrowed_of(readers1[i])[n as int] == item);
    assert forall|k: int|
        0 <= k < readers1.len() && k != i implies !has_code(
        #[trigger] T::borrowed_of(readers1[k]),
        code,
    ) by {
        assert(readers1[k] == readers0[k]);
        assert(!has_code(T::borrowed_of(readers0[k]), code));
    }
}

/// Law: a failed borrow transfer moves nothing. When the collections come
/// out unchanged, an identity that stood in the depository still stands
/// there, and one that stood in no reader's own-kind list still stands in
/// none.
pub proof fn lemma_borrow_transfer_failed<T: DepositoryItem>(
    readers0: Seq<Reader>,
    readers1: Seq<Reader>,
    items0: Seq<T>,
    items1: Seq<T>,
    item: T,
)
    requires
        readers1 == readers0,
        items1 == items0,
        has_code(items0, item.spec_code()),
        forall|k: int|
            0 <= k < readers0.len() ==> !has_code(
                #[trigger] T::borrowed_of(readers0[k]),
                item.spec_code(),
            ),
    ensures
        has_code(items1, item.spec_code()),
        forall|k: int|
            0 <= k < readers1.len() ==> !has_code(
                #[trigger] T::borrowed_of(readers1[k]),
                item.spec_code(),
            ),
{
}

} // verus!
