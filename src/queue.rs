use vstd::prelude::*;
use crate::error::PlayError;

verus! {

/// `s` with its part after index 0 rotated right by `n` positions
/// (`n` taken modulo the length of that part).
pub open spec fn rotated_tail<T>(s: Seq<T>, n: nat) -> Seq<T>
    recommends
        s.len() > 1,
{
    let m = s.len() - 1;
    let k = (n % (m as nat)) as int;
    seq![s[0]] + s.subrange(1 + m - k, s.len() as int) + s.subrange(1, 1 + m - k)
}

/// The queue after an `insert_at(item, idx)` that succeeds: a queue of at most
/// one item gets the item appended, a longer one gets it at `idx`.
pub open spec fn inserted_at<T>(s: Seq<T>, item: T, idx: int) -> Seq<T> {
    if s.len() <= 1 {
        s.push(item)
    } else {
        s.insert(idx, item)
    }
}

/// `insert_at` accepts the index: always for a queue of at most one item,
/// otherwise when `1 <= idx <= s.len()`.
pub open spec fn insert_index_ok(len: nat, idx: nat) -> bool {
    len <= 1 || (1 <= idx && idx <= len)
}

/// Appends `item` at the end of the queue.
pub fn append<T>(queue: &mut Vec<T>, item: T)
    ensures
        final(queue)@ == old(queue)@.push(item),
{
    queue.push(item);
}

/// Decides whether an item may be inserted at `idx` in a queue of `len` items:
/// `Ok(false)` when the queue holds at most one item (a plain append),
/// `Ok(true)` when the appended item must then be moved to `idx`.
pub fn check_insert_index(len: usize, idx: usize) -> (r: Result<bool, PlayError>)
    ensures
        len <= 1 ==> r == Ok::<bool, PlayError>(false),
        len > 1 && 1 <= idx <= len ==> r == Ok::<bool, PlayError>(true),
        len > 1 && !(1 <= idx <= len) ==> r == Err::<bool, PlayError>(
            PlayError::IndexOutOfRange(idx, 1, len),
        ),
{
    if len <= 1 {
        Ok(false)
    } else if idx >= 1 && idx <= len {
        Ok(true)
    } else {
        Err(PlayError::IndexOutOfRange(idx, 1, len))
    }
}

/// Moves the last item of the queue to position `idx`, keeping the order of
/// all the others.
pub fn relocate_tail<T>(queue: &mut Vec<T>, idx: usize)
    requires
        1 <= idx < old(queue)@.len(),
    ensures
        final(queue)@ == old(queue)@.drop_last().insert(idx as int, old(queue)@.last()),
{
    let back = queue.pop().unwrap();
    queue.insert(idx, back);
}

/// Inserts `item` at `idx`. A queue of at most one item gets it appended with
/// no check of the index; otherwise `idx` must lie in `[1, len]`, and on any
/// other index the queue is left as it was.
pub fn insert_at<T>(queue: &mut Vec<T>, item: T, idx: usize) -> (r: Result<(), PlayError>)
    ensures
        insert_index_ok(old(queue)@.len(), idx as nat) ==> r is Ok && final(queue)@ == inserted_at(
            old(queue)@,
            item,
            idx as int,
        ),
        !insert_index_ok(old(queue)@.len(), idx as nat) ==> r == Err::<(), PlayError>(
            PlayError::IndexOutOfRange(idx, 1, old(queue)@.len() as usize),
        ) && final(queue)@ == old(queue)@,
{
    let ghost s = queue@;
    let relocate = match check_insert_index(queue.len(), idx) {
        Ok(b) => b,
        Err(e) => {
            return Err(e);
        },
    };
    queue.push(item);
    if relocate {
        relocate_tail(queue, idx);
        assert(s.push(item).drop_last() =~= s);
    }
    Ok(())
}

/// Rotates the part of the queue after index 0 right by `n` positions. Needs
/// more than two items; a shorter queue is left as it was.
pub fn rotate_tail<T>(queue: &mut Vec<T>, n: usize) -> (r: Result<(), PlayError>)
    ensures
        old(queue)@.len() <= 2 ==> r == Err::<(), PlayError>(PlayError::RotationInvalid)
            && final(queue)@ == old(queue)@,
        old(queue)@.len() > 2 ==> r is Ok && final(queue)@ == rotated_tail(old(queue)@, n as nat),
{
    let len = queue.len();
    if len <= 2 {
        return Err(PlayError::RotationInvalid);
    }
    let ghost s = queue@;
    let ghost m = s.len() - 1;
    let k = n % (len - 1);
    let mut j: usize = 0;
    assert(s =~= seq![s[0]] + s.subrange(1 + m - 0, s.len() as int) + s.subrange(1, 1 + m - 0));
    while j < k
        invariant
            len == s.len(),
            m == len - 1,
            k < m,
            j <= k,
            queue@ == seq![s[0]] + s.subrange(1 + m - j, s.len() as int) + s.subrange(1, 1 + m - j),
        decreases k - j,
    {
        let ghost before = queue@;
        let back = queue.pop().unwrap();
        assert(back == s[m - j]);
        queue.insert(1, back);
        assert(queue@ =~= seq![s[0]] + s.subrange(1 + m - (j + 1), s.len() as int) + s.subrange(
            1,
            1 + m - (j + 1),
        ));
        j += 1;
    }
    Ok(())
}

/// Drops the item at index 0 (the one playing), so that the next one becomes
/// current. An empty queue stays empty.
pub fn force_skip_current<T>(queue: &mut Vec<T>)
    ensures
        old(queue)@.len() > 0 ==> final(queue)@ == old(queue)@.drop_first(),
        old(queue)@.len() == 0 ==> final(queue)@ == old(queue)@,
{
    if queue.len() > 0 {
        queue.remove(0);
    }
}

/// Places a single item at the front while something is playing: appends it,
/// rotates it right behind the current item and skips the current one. On an
/// empty queue the item is only appended. A queue that held one item is too
/// short to rotate after the append: the item stays appended and the rotation
/// error is returned.
pub fn jump_to_front<T>(queue: &mut Vec<T>, item: T) -> (r: Result<(), PlayError>)
    ensures
        old(queue)@.len() == 0 ==> r is Ok && final(queue)@ == seq![item],
        old(queue)@.len() == 1 ==> r == Err::<(), PlayError>(PlayError::RotationInvalid)
            && final(queue)@ == old(queue)@.push(item),
        old(queue)@.len() >= 2 ==> r is Ok && final(queue)@ == seq![item] + old(queue)@.subrange(
            1,
            old(queue)@.len() as int,
        ),
{
    let ghost s = queue@;
    let was_empty = queue.len() == 0;
    append(queue, item);
    if was_empty {
        assert(queue@ =~= seq![item]);
        return Ok(());
    }
    match rotate_tail(queue, 1) {
        Ok(()) => {},
        Err(e) => {
            return Err(e);
        },
    }
    proof {
        let t = s.push(item);
        let m = t.len() - 1;
        assert(1nat % (m as nat) == 1) by (nonlinear_arith)
            requires
                m >= 2,
        ;
        assert(rotated_tail(t, 1) =~= seq![s[0], item] + s.subrange(1, s.len() as int));
    }
    force_skip_current(queue);
    assert(queue@ =~= seq![item] + s.subrange(1, s.len() as int));
    Ok(())
}

/// On a queue of one item, `insert_at` accepts every index and appends.
pub proof fn lemma_insert_on_single_appends<T>(s: Seq<T>, item: T, idx: nat)
    requires
        s.len() == 1,
    ensures
        insert_index_ok(s.len(), idx),
        inserted_at(s, item, idx as int) == s.push(item),
{
}

/// On a queue of more than one item, an index outside `[1, len]` is refused.
pub proof fn lemma_insert_out_of_range_refused(len: nat, idx: nat)
    requires
        len > 1,
        idx < 1 || idx > len,
    ensures
        !insert_index_ok(len, idx),
{
}

} // verus!
