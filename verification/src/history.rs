//! The transcription history: an append-at-front list bounded by a
//! configurable maximum, newest first, oldest evicted past the bound.

use vstd::prelude::*;
use crate::errors::AppError;
use crate::settings::TranscriptionMode;

verus! {

/// One finished transcription.
#[derive(Debug)]
pub struct HistoryItem {
    pub id: String,
    pub text: String,
    /// When the transcription finished, as Unix seconds.
    pub timestamp: i64,
    /// Length of the recognized recording in milliseconds.
    pub duration_ms: u64,
    pub mode: TranscriptionMode,
    /// Model the local path used, if any.
    pub model_name: Option<String>,
}

impl HistoryItem {
    /// An exact copy of the item.
    pub fn duplicate(&self) -> (r: HistoryItem)
        ensures
            r == *self,
    {
        HistoryItem {
            id: self.id.clone(),
            text: self.text.clone(),
            timestamp: self.timestamp,
            duration_ms: self.duration_ms,
            mode: self.mode,
            model_name: match &self.model_name {
                Some(m) => Some(m.clone()),
                None => None,
            },
        }
    }
}

/// The history after inserting `item` at the front of `h` under the cap
/// `max`: the newest item first, and everything past the cap dropped.
pub open spec fn push_bounded_spec(h: Seq<HistoryItem>, item: HistoryItem, max: int) -> Seq<
    HistoryItem,
> {
    let grown = h.insert(0, item);
    if grown.len() <= max {
        grown
    } else if max >= 0 {
        grown.subrange(0, max)
    } else {
        Seq::<HistoryItem>::empty()
    }
}

/// Insert a finished transcription at the front of the history and
/// evict whatever the cap no longer admits.
pub fn push_history(history: &mut Vec<HistoryItem>, item: HistoryItem, max: usize)
    requires
        old(history)@.len() < usize::MAX,
    ensures
        final(history)@ == push_bounded_spec(old(history)@, item, max as int),
{
    history.insert(0, item);
    history.truncate(max);
    proof {
        if max < history@.len() {
            assert(final(history)@ =~= push_bounded_spec(old(history)@, item, max as int));
        }
    }
}

/// The history without the items carrying `id`, order kept.
pub open spec fn without_id_spec(h: Seq<HistoryItem>, id: Seq<char>) -> Seq<HistoryItem>
    decreases h.len(),
{
    if h.len() == 0 {
        h
    } else {
        let rest = without_id_spec(h.drop_last(), id);
        if h.last().id@ == id {
            rest
        } else {
            rest.push(h.last())
        }
    }
}

/// Whether some item of `h` carries `id`.
pub open spec fn has_id_spec(h: Seq<HistoryItem>, id: Seq<char>) -> bool {
    exists|k: int| 0 <= k < h.len() && #[trigger] h[k].id@ == id
}

/// Delete the history items carrying `id`; an unknown id is refused and
/// changes nothing.
pub fn delete_history_item(history: &mut Vec<HistoryItem>, id: &str) -> (r: Result<(), AppError>)
    ensures
        final(history)@ == without_id_spec(old(history)@, id@),
        r == Ok::<(), AppError>(()) <==> has_id_spec(old(history)@, id@),
        r is Err ==> final(history)@ == old(history)@,
{
    let ghost orig = history@;
    let n = history.len();
    let mut kept: Vec<HistoryItem> = Vec::new();
    let mut found = false;
    let mut i: usize = 0;
    while i < n
        invariant
            n == orig.len(),
            history@ == orig,
            i <= n,
            kept@ == without_id_spec(orig.subrange(0, i as int), id@),
            found == has_id_spec(orig.subrange(0, i as int), id@),
        decreases n - i,
    {
        proof {
            assert(orig.subrange(0, i + 1 as int).drop_last() =~= orig.subrange(0, i as int));
        }
        let it = &history[i];
        if crate::text::str_eq(it.id.as_str(), id) {
            found = true;
            proof {
                assert(orig.subrange(0, i + 1 as int)[i as int].id@ == id@);
            }
        } else {
            kept.push(it.duplicate());
        }
        proof {
            let pre = orig.subrange(0, i as int);
            let cur = orig.subrange(0, i + 1 as int);
            assert(has_id_spec(cur, id@) == (has_id_spec(pre, id@) || cur.last().id@ == id@))
                by {
                if has_id_spec(pre, id@) {
                    let k = choose|k: int| 0 <= k < pre.len() && #[trigger] pre[k].id@ == id@;
                    assert(cur[k].id@ == id@);
                }
                if has_id_spec(cur, id@) && cur.last().id@ != id@ {
                    let k = choose|k: int| 0 <= k < cur.len() && #[trigger] cur[k].id@ == id@;
                    assert(pre[k].id@ == id@);
                }
            };
        }
        i = i + 1;
    }
    proof {
        assert(orig.subrange(0, n as int) =~= orig);
    }
    if found {
        *history = kept;
        Ok(())
    } else {
        proof {
            lemma_without_absent_id(orig, id@);
        }
        Err(AppError::HistoryItemNotFound)
    }
}

proof fn lemma_without_absent_id(h: Seq<HistoryItem>, id: Seq<char>)
    requires
        !has_id_spec(h, id),
    ensures
        without_id_spec(h, id) =~= h,
    decreases h.len(),
{
    if h.len() > 0 {
        assert(forall|k: int|
            0 <= k < h.len() - 1 ==> #[trigger] h.drop_last()[k].id@ == h[k].id@);
        assert(!has_id_spec(h.drop_last(), id)) by {
            if has_id_spec(h.drop_last(), id) {
                let k = choose|k: int|
                    0 <= k < h.drop_last().len() && #[trigger] h.drop_last()[k].id@ == id;
                assert(h[k].id@ == id);
            }
        };
        lemma_without_absent_id(h.drop_last(), id);
        assert(h.last().id@ != id) by {
            if h.last().id@ == id {
                assert(h[h.len() - 1].id@ == id);
            }
        };
    }
}

/// An exact copy of the whole history, newest first.
pub fn clone_history(history: &Vec<HistoryItem>) -> (r: Vec<HistoryItem>)
    ensures
        r@ == history@,
{
    let mut out: Vec<HistoryItem> = Vec::new();
    let mut i: usize = 0;
    let n = history.len();
    while i < n
        invariant
            n == history@.len(),
            i <= n,
            out@ =~= history@.subrange(0, i as int),
        decreases n - i,
    {
        out.push(history[i].duplicate());
        i = i + 1;
    }
    proof {
        assert(history@.subrange(0, n as int) =~= history@);
    }
    out
}

/// Law: inserting one more item into a history already at its cap keeps
/// exactly the cap, with the new item first, every survivor shifted by
/// one, and the oldest item gone.
pub proof fn lemma_history_bound(h: Seq<HistoryItem>, item: HistoryItem, max: int)
    requires
        h.len() == max,
        max >= 1,
    ensures
        push_bounded_spec(h, item, max).len() == max,
        push_bounded_spec(h, item, max)[0] == item,
        forall|i: int| 1 <= i < max ==> #[trigger] push_bounded_spec(h, item, max)[i] == h[i - 1],
{
    let grown = h.insert(0, item);
    assert(grown.len() == max + 1);
    assert(push_bounded_spec(h, item, max) =~= grown.subrange(0, max));
}

} // verus!
