use vstd::prelude::*;

verus! {

/// Truncates a query result fetched with `limit + 1` and derives the cursor
/// from the last visible item only when another page exists.
pub fn split_page<T, C, F: FnOnce(&T) -> C>(items: Vec<T>, limit: usize, cursor: F) -> (page: (
    Vec<T>,
    Option<C>,
))
    requires
        items@.len() > limit && limit > 0 ==> cursor.requires((&items@[limit - 1],)),
    ensures
        page.0@ == if items@.len() > limit {
            items@.take(limit as int)
        } else {
            items@
        },
        page.1 is Some <==> (items@.len() > limit && limit > 0),
        page.1 matches Some(c) ==> cursor.ensures((&items@[limit - 1],), c),
{
    let mut items = items;
    let has_more = items.len() > limit;
    items.truncate(limit);
    let next_cursor = if has_more && limit > 0 {
        let last = &items[limit - 1];
        Some(cursor(last))
    } else {
        None
    };
    (items, next_cursor)
}

} // verus!
