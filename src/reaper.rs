//! The reaper's tick. Each tick deletes the expired image rows and learns
//! exactly which identifiers went, removes their files, then deletes the
//! expired paste rows. A failure along the way is reported, never fatal:
//! the tick always goes on to the next step.

use vstd::prelude::*;
use crate::config::{cutoff_of, reap_cutoff, Config, Span};
use crate::links::{data_file, data_file_path};
use crate::store::{expired_ids, ids_of, lemma_reap_removes_expired, lookup, reap_view, table_wf, TableView};

verus! {

/// Where a tick stands.
pub enum Tick {
    /// Image rows expired at `cutoff` are being deleted.
    ReapingImages { cutoff: i64 },
    /// The files of the deleted image rows are being removed.
    RemovingFiles { cutoff: i64, reaped: Vec<i64> },
    /// Paste rows expired at `cutoff` are being deleted.
    ReapingPastes { cutoff: i64, reaped: Vec<i64>, missing: Vec<i64>, image_query_failed: bool },
}

/// What the caller of a tick does next.
pub enum TickAction {
    /// Delete the image rows with `expires <= cutoff`, and report exactly
    /// the identifiers deleted.
    DeleteImageRows { cutoff: i64 },
    /// Remove these files, and report for each whether that worked.
    RemoveFiles { paths: Vec<String> },
    /// Delete the paste rows with `expires <= cutoff`, and report whether
    /// that worked.
    DeletePasteRows { cutoff: i64 },
}

/// What a finished tick did, for the log.
pub struct TickReport {
    pub cutoff: i64,
    /// The identifiers of the image rows deleted.
    pub reaped: Vec<i64>,
    /// The identifiers whose file could not be removed.
    pub missing: Vec<i64>,
    pub image_query_failed: bool,
    pub paste_query_failed: bool,
}

impl TickReport {
    /// Whether fewer files were removed than image rows were deleted: an
    /// orphan file was left, which is logged and left for later.
    pub fn mismatch(&self) -> (r: bool)
        ensures
            r == (self.missing@.len() > 0),
    {
        self.missing.len() > 0
    }
}

/// The files a tick removes for the deleted identifiers `ids`, in order.
pub open spec fn removal_paths(dir: Seq<char>, ids: Seq<i64>) -> Seq<Seq<char>> {
    Seq::new(ids.len(), |k: int| data_file(dir, ids[k] as int))
}

/// The text of each path.
pub open spec fn path_views(paths: Seq<String>) -> Seq<Seq<char>> {
    paths.map_values(|p: String| p@)
}

/// The identifiers among `ids` whose removal did not succeed, in order.
pub open spec fn missing_ids(ids: Seq<i64>, removed: Seq<bool>) -> Seq<i64>
    decreases ids.len(),
{
    if ids.len() == 0 {
        ids
    } else {
        let rest = missing_ids(ids.drop_last(), removed);
        if removed[ids.len() - 1] {
            rest
        } else {
            rest.push(ids.last())
        }
    }
}

/// Starts a tick at `now`: image rows are deleted first, up to the whole
/// seconds of `now`.
pub fn cleanup(now: Span) -> (r: (Tick, TickAction))
    ensures
        r.0 == (Tick::ReapingImages { cutoff: cutoff_of(now) as i64 }),
        r.1 == (TickAction::DeleteImageRows { cutoff: cutoff_of(now) as i64 }),
{
    let cutoff = reap_cutoff(now);
    (Tick::ReapingImages { cutoff }, TickAction::DeleteImageRows { cutoff })
}

impl Tick {
    /// Takes the identifiers of the image rows deleted (`None` when the
    /// delete failed). Their files are removed next; with no rows, or a
    /// failed delete, there is nothing to remove.
    pub fn on_images_reaped(self, config: &Config, reaped: Option<Vec<i64>>) -> (r: (Tick, TickAction))
        requires
            self is ReapingImages,
        ensures
            reaped matches Some(ids) ==> (r.0 matches Tick::RemovingFiles { cutoff, reaped: kept } && cutoff
                == self->ReapingImages_cutoff && kept@ == ids@) && (r.1 matches TickAction::RemoveFiles { paths }
                && path_views(paths@) == removal_paths(config.data_dir@, ids@)),
            reaped is None ==> (r.0 matches Tick::ReapingPastes { cutoff, reaped: none, missing, image_query_failed }
                && cutoff == self->ReapingImages_cutoff && none@.len() == 0 && missing@.len() == 0
                && image_query_failed) && r.1 == (TickAction::DeletePasteRows {
                cutoff: self->ReapingImages_cutoff,
            }),
    {
        let cutoff = match self {
            Tick::ReapingImages { cutoff } => cutoff,
            Tick::RemovingFiles { cutoff, .. } => cutoff,
            Tick::ReapingPastes { cutoff, .. } => cutoff,
        };
        match reaped {
            None => (
                Tick::ReapingPastes { cutoff, reaped: Vec::new(), missing: Vec::new(), image_query_failed: true },
                TickAction::DeletePasteRows { cutoff },
            ),
            Some(ids) => {
                let mut paths: Vec<String> = Vec::new();
                let mut k: usize = 0;
                while k < ids.len()
                    invariant
                        0 <= k <= ids@.len(),
                        paths@.len() == k,
                        path_views(paths@) == removal_paths(config.data_dir@, ids@.subrange(
                            0,
                            k as int,
                        )),
                    decreases ids@.len() - k,
                {
                    let path = data_file_path(config.data_dir.as_str(), ids[k]);
                    let ghost before = path_views(paths@);
                    let ghost old_paths = paths@;
                    let ghost prev = removal_paths(config.data_dir@, ids@.subrange(0, k as int));
                    paths.push(path);
                    let ghost next = removal_paths(config.data_dir@, ids@.subrange(0, k + 1));
                    assert forall|j: int| 0 <= j < k + 1 implies #[trigger] path_views(paths@)[j] == next[j] by {
                        if j < k {
                            assert(paths@[j] == old_paths[j]);
                            assert(before[j] == prev[j]);
                        }
                    }
                    assert(path_views(paths@) =~= removal_paths(config.data_dir@, ids@.subrange(
                        0,
                        k + 1,
                    )));
                    k = k + 1;
                }
                assert(ids@.subrange(0, ids@.len() as int) == ids@);
                (Tick::RemovingFiles { cutoff, reaped: ids }, TickAction::RemoveFiles { paths })
            },
        }
    }

    /// Takes, for each file of the deleted rows in order, whether it was
    /// removed. A file that could not be removed is recorded as missing and
    /// the tick goes on; the paste rows are deleted next.
    pub fn on_files_removed(self, removed: &Vec<bool>) -> (r: (Tick, TickAction))
        requires
            self matches Tick::RemovingFiles { reaped, .. } && removed@.len() == reaped@.len(),
        ensures
            r.0 matches Tick::ReapingPastes { cutoff, reaped, missing, image_query_failed } && cutoff
                == self->RemovingFiles_cutoff && reaped@ == self->RemovingFiles_reaped@ && missing@ == missing_ids(
                reaped@,
                removed@,
            ) && !image_query_failed,
            r.1 == (TickAction::DeletePasteRows { cutoff: self->RemovingFiles_cutoff }),
    {
        match self {
            Tick::RemovingFiles { cutoff, reaped } => {
                let mut missing: Vec<i64> = Vec::new();
                let mut k: usize = 0;
                while k < reaped.len()
                    invariant
                        0 <= k <= reaped@.len(),
                        removed@.len() == reaped@.len(),
                        missing@ == missing_ids(reaped@.subrange(0, k as int), removed@),
                    decreases reaped@.len() - k,
                {
                    let ghost prefix = reaped@.subrange(0, k + 1);
                    assert(prefix.drop_last() == reaped@.subrange(0, k as int));
                    if !removed[k] {
                        missing.push(reaped[k]);
                    }
                    k = k + 1;
                }
                assert(reaped@.subrange(0, reaped@.len() as int) == reaped@);
                (
                    Tick::ReapingPastes { cutoff, reaped, missing, image_query_failed: false },
                    TickAction::DeletePasteRows { cutoff },
                )
            },
            Tick::ReapingImages { cutoff } => (
                Tick::ReapingPastes { cutoff, reaped: Vec::new(), missing: Vec::new(), image_query_failed: false },
                TickAction::DeletePasteRows { cutoff },
            ),
            Tick::ReapingPastes { cutoff, reaped, missing, image_query_failed } => (
                Tick::ReapingPastes { cutoff, reaped, missing, image_query_failed },
                TickAction::DeletePasteRows { cutoff },
            ),
        }
    }

    /// Takes whether the paste rows were deleted, and ends the tick with
    /// its report.
    pub fn on_pastes_reaped(self, deleted: bool) -> (r: TickReport)
        requires
            self is ReapingPastes,
        ensures
            r.cutoff == self->ReapingPastes_cutoff,
            r.reaped@ == self->ReapingPastes_reaped@,
            r.missing@ == self->ReapingPastes_missing@,
            r.image_query_failed == self->ReapingPastes_image_query_failed,
            r.paste_query_failed == !deleted,
    {
        match self {
            Tick::ReapingPastes { cutoff, reaped, missing, image_query_failed } => TickReport {
                cutoff,
                reaped,
                missing,
                image_query_failed,
                paste_query_failed: !deleted,
            },
            Tick::ReapingImages { cutoff } => TickReport {
                cutoff,
                reaped: Vec::new(),
                missing: Vec::new(),
                image_query_failed: false,
                paste_query_failed: !deleted,
            },
            Tick::RemovingFiles { cutoff, reaped } => TickReport {
                cutoff,
                reaped,
                missing: Vec::new(),
                image_query_failed: false,
                paste_query_failed: !deleted,
            },
        }
    }
}

/// One tick removes what has expired: when the tick's clock reads past a
/// record's expiry, the image-row delete takes the record out of the
/// index, and the files the tick then removes include the record's file.
pub proof fn lemma_tick_reaps_expired(v: TableView, now: Span, dir: Seq<char>, id: int, reaped: Seq<i64>)
    requires
        table_wf(v),
        lookup(v, id) matches Some(rec) && rec.expires <= cutoff_of(now),
        ids_of(reaped).to_set() == expired_ids(v.rows, cutoff_of(now)),
    ensures
        lookup(reap_view(v, cutoff_of(now)), id) is None,
        exists|k: int| 0 <= k < reaped.len() && #[trigger] removal_paths(dir, reaped)[k] == data_file(dir, id),
{
    lemma_reap_removes_expired(v, cutoff_of(now), id);
    assert(ids_of(reaped).to_set().contains(id));
    let k = choose|k: int| 0 <= k < ids_of(reaped).len() && ids_of(reaped)[k] == id;
    assert(removal_paths(dir, reaped)[k] == data_file(dir, id));
}

} // verus!
