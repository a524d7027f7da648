//! A model of the destination host, and the laws of a transfer's effect
//! on it. A completed file transfer stages the relayed bytes, copies them
//! to the final path, removes the staging file and applies the discovered
//! mode: on the model that is one `PutFile` step. Creating a directory is
//! one `MakeDir` step. A directory synchronization that completes is a
//! sequence of such steps, one per replayed entry.

use vstd::prelude::*;

verus! {

/// One file of the model host: its bytes and its permission bits.
pub ghost struct ModelFile {
    pub content: Seq<u8>,
    pub mode: u32,
}

/// The destination host as the transfer sees it: files by path, and the
/// set of directories.
pub ghost struct ModelHost {
    pub files: Map<Seq<char>, ModelFile>,
    pub dirs: Set<Seq<char>>,
}

/// The effect of one completed sub-operation on the destination.
pub ghost enum ModelStep {
    /// One file landed: its bytes were staged, copied to the final path,
    /// the staging file removed, and the mode applied.
    PutFile { staging: Seq<char>, dest: Seq<char>, content: Seq<u8>, mode: u32 },
    /// One directory was created (or already existed).
    MakeDir { path: Seq<char> },
}

/// Applying one step to the host.
pub open spec fn apply_step(h: ModelHost, s: ModelStep) -> ModelHost {
    match s {
        ModelStep::PutFile { staging, dest, content, mode } => ModelHost {
            files: h.files.insert(dest, ModelFile { content, mode }).remove(staging),
            dirs: h.dirs,
        },
        ModelStep::MakeDir { path } => ModelHost { files: h.files, dirs: h.dirs.insert(path) },
    }
}

/// Applying a sequence of steps, in order.
pub open spec fn apply_steps(h: ModelHost, steps: Seq<ModelStep>) -> ModelHost
    decreases steps.len(),
{
    if steps.len() == 0 {
        h
    } else {
        apply_steps(apply_step(h, steps[0]), steps.drop_first())
    }
}

/// Whether one step stages through this path.
pub open spec fn stages_at(s: ModelStep, k: Seq<char>) -> bool {
    s matches ModelStep::PutFile { staging, .. } && staging == k
}

/// Whether one step lands a file at this path.
pub open spec fn lands_at(s: ModelStep, k: Seq<char>) -> bool {
    s matches ModelStep::PutFile { dest, .. } && dest == k
}

/// Whether one step creates this directory.
pub open spec fn makes_dir_at(s: ModelStep, p: Seq<char>) -> bool {
    s matches ModelStep::MakeDir { path } && path == p
}

/// Whether some step stages through this path.
pub open spec fn is_staging_of(steps: Seq<ModelStep>, k: Seq<char>) -> bool {
    exists|i: int| 0 <= i < steps.len() && stages_at(#[trigger] steps[i], k)
}

/// Whether some step lands a file at this path.
pub open spec fn is_dest_of(steps: Seq<ModelStep>, k: Seq<char>) -> bool {
    exists|i: int| 0 <= i < steps.len() && lands_at(#[trigger] steps[i], k)
}

/// A well-formed plan keeps staging paths apart from final paths, which
/// the staging-name scheme guarantees for names under the staging prefix.
pub open spec fn wf_steps(steps: Seq<ModelStep>) -> bool {
    forall|k: Seq<char>| !(#[trigger] is_staging_of(steps, k) && is_dest_of(steps, k))
}

/// Whether two hosts agree about one file path.
pub open spec fn files_agree_at(a: ModelHost, b: ModelHost, k: Seq<char>) -> bool {
    a.files.contains_key(k) == b.files.contains_key(k) && (a.files.contains_key(k)
        ==> a.files[k] == b.files[k])
}

/// One `PutFile` step, for stating laws.
pub open spec fn put_file(
    staging: Seq<char>,
    dest: Seq<char>,
    content: Seq<u8>,
    mode: u32,
) -> ModelStep {
    ModelStep::PutFile { staging, dest, content, mode }
}

/// One model file, for stating laws.
pub open spec fn model_file(content: Seq<u8>, mode: u32) -> ModelFile {
    ModelFile { content, mode }
}

/// The round-trip law: after a completed file transfer, reading the
/// destination path back yields exactly the relayed bytes and the
/// discovered mode.
pub proof fn lemma_file_round_trip(
    h: ModelHost,
    staging: Seq<char>,
    dest: Seq<char>,
    content: Seq<u8>,
    mode: u32,
)
    requires
        staging != dest,
    ensures
        apply_step(h, put_file(staging, dest, content, mode)).files.contains_key(dest),
        apply_step(h, put_file(staging, dest, content, mode)).files[dest] == model_file(
            content,
            mode,
        ),
        !apply_step(h, put_file(staging, dest, content, mode)).files.contains_key(staging),
{
}

/// Repeating one completed file transfer changes nothing: the destination
/// holds the same bytes and mode afterwards.
pub proof fn lemma_file_transfer_idempotent(
    h: ModelHost,
    staging: Seq<char>,
    dest: Seq<char>,
    content: Seq<u8>,
    mode: u32,
)
    requires
        staging != dest,
    ensures
        apply_step(
            apply_step(h, put_file(staging, dest, content, mode)),
            put_file(staging, dest, content, mode),
        ) == apply_step(h, put_file(staging, dest, content, mode)),
{
    let once = apply_step(h, put_file(staging, dest, content, mode));
    let twice = apply_step(once, put_file(staging, dest, content, mode));
    assert(twice.files =~= once.files);
    assert(twice.dirs =~= once.dirs);
}

/// The directories a plan creates.
pub open spec fn mkdirs_of(steps: Seq<ModelStep>) -> Set<Seq<char>> {
    Set::new(|p: Seq<char>| exists|i: int| 0 <= i < steps.len() && makes_dir_at(#[trigger] steps[i], p))
}

/// Applying a plan adds exactly its directories.
proof fn lemma_steps_dirs(h: ModelHost, steps: Seq<ModelStep>)
    ensures
        apply_steps(h, steps).dirs == h.dirs + mkdirs_of(steps),
    decreases steps.len(),
{
    if steps.len() == 0 {
        assert(mkdirs_of(steps) =~= Set::<Seq<char>>::empty());
        assert(h.dirs + mkdirs_of(steps) =~= h.dirs);
    } else {
        let tail = steps.drop_first();
        let hb = apply_step(h, steps[0]);
        lemma_steps_dirs(hb, tail);
        assert forall|p: Seq<char>| #[trigger] mkdirs_of(tail).contains(p) implies mkdirs_of(
            steps,
        ).contains(p) by {
            let i = choose|i: int| 0 <= i < tail.len() && makes_dir_at(#[trigger] tail[i], p);
            assert(steps[i + 1] == tail[i]);
            assert(makes_dir_at(steps[i + 1], p));
        }
        assert forall|p: Seq<char>| #[trigger] mkdirs_of(steps).contains(p) implies hb.dirs.contains(
            p,
        ) || mkdirs_of(tail).contains(p) by {
            let i = choose|i: int| 0 <= i < steps.len() && makes_dir_at(#[trigger] steps[i], p);
            if i > 0 {
                assert(tail[i - 1] == steps[i]);
                assert(makes_dir_at(tail[i - 1], p));
            }
        }
        assert(apply_steps(h, steps).dirs =~= h.dirs + mkdirs_of(steps));
    }
}

/// A touch of this path by some tail step is a touch by the plan.
proof fn lemma_touch_shift(steps: Seq<ModelStep>, k: Seq<char>)
    requires
        steps.len() > 0,
    ensures
        is_staging_of(steps.drop_first(), k) ==> is_staging_of(steps, k),
        is_dest_of(steps.drop_first(), k) ==> is_dest_of(steps, k),
        is_staging_of(steps, k) && !stages_at(steps[0], k) ==> is_staging_of(
            steps.drop_first(),
            k,
        ),
        is_dest_of(steps, k) && !lands_at(steps[0], k) ==> is_dest_of(steps.drop_first(), k),
{
    let tail = steps.drop_first();
    if is_staging_of(tail, k) {
        let i = choose|i: int| 0 <= i < tail.len() && stages_at(#[trigger] tail[i], k);
        assert(steps[i + 1] == tail[i]);
        assert(stages_at(steps[i + 1], k));
    }
    if is_dest_of(tail, k) {
        let i = choose|i: int| 0 <= i < tail.len() && lands_at(#[trigger] tail[i], k);
        assert(steps[i + 1] == tail[i]);
        assert(lands_at(steps[i + 1], k));
    }
    if is_staging_of(steps, k) && !stages_at(steps[0], k) {
        let i = choose|i: int| 0 <= i < steps.len() && stages_at(#[trigger] steps[i], k);
        assert(i > 0);
        assert(tail[i - 1] == steps[i]);
        assert(stages_at(tail[i - 1], k));
    }
    if is_dest_of(steps, k) && !lands_at(steps[0], k) {
        let i = choose|i: int| 0 <= i < steps.len() && lands_at(#[trigger] steps[i], k);
        assert(i > 0);
        assert(tail[i - 1] == steps[i]);
        assert(lands_at(tail[i - 1], k));
    }
}

/// A path no step touches keeps its file.
proof fn lemma_steps_untouched(h: ModelHost, steps: Seq<ModelStep>, k: Seq<char>)
    requires
        !is_staging_of(steps, k),
        !is_dest_of(steps, k),
    ensures
        files_agree_at(apply_steps(h, steps), h, k),
    decreases steps.len(),
{
    if steps.len() > 0 {
        let tail = steps.drop_first();
        let hb = apply_step(h, steps[0]);
        lemma_touch_shift(steps, k);
        assert(!stages_at(steps[0], k)) by {
            if stages_at(steps[0], k) {
                assert(is_staging_of(steps, k));
            }
        }
        assert(!lands_at(steps[0], k)) by {
            if lands_at(steps[0], k) {
                assert(is_dest_of(steps, k));
            }
        }
        assert(files_agree_at(hb, h, k));
        lemma_steps_untouched(hb, tail, k);
    }
}

/// Well-formedness passes to the tail of a plan.
proof fn lemma_wf_tail(steps: Seq<ModelStep>)
    requires
        wf_steps(steps),
        steps.len() > 0,
    ensures
        wf_steps(steps.drop_first()),
{
    let tail = steps.drop_first();
    assert forall|k: Seq<char>| !(#[trigger] is_staging_of(tail, k) && is_dest_of(tail, k)) by {
        if is_staging_of(tail, k) && is_dest_of(tail, k) {
            lemma_touch_shift(steps, k);
        }
    }
}

/// Wherever a plan lands or stages a file, its outcome does not depend on
/// the host it started from.
proof fn lemma_steps_agree(h1: ModelHost, h2: ModelHost, steps: Seq<ModelStep>, k: Seq<char>)
    requires
        wf_steps(steps),
        is_staging_of(steps, k) || is_dest_of(steps, k),
    ensures
        files_agree_at(apply_steps(h1, steps), apply_steps(h2, steps), k),
    decreases steps.len(),
{
    let tail = steps.drop_first();
    let h1b = apply_step(h1, steps[0]);
    let h2b = apply_step(h2, steps[0]);
    lemma_wf_tail(steps);
    lemma_touch_shift(steps, k);
    if is_staging_of(tail, k) || is_dest_of(tail, k) {
        lemma_steps_agree(h1b, h2b, tail, k);
    } else {
        // only the first step touches this path
        assert(stages_at(steps[0], k) || lands_at(steps[0], k));
        assert(files_agree_at(h1b, h2b, k)) by {
            if stages_at(steps[0], k) {
                // the path cannot also be a destination, so both removed it
                assert(!lands_at(steps[0], k)) by {
                    if lands_at(steps[0], k) {
                        assert(is_staging_of(steps, k) && is_dest_of(steps, k));
                    }
                }
            }
        }
        lemma_steps_untouched(h1b, tail, k);
        lemma_steps_untouched(h2b, tail, k);
    }
}

/// The idempotence law: re-running a directory transfer whose plan kept
/// staging and final paths apart, after a full success, changes nothing
/// on the destination.
pub proof fn lemma_sync_idempotent(h: ModelHost, steps: Seq<ModelStep>)
    requires
        wf_steps(steps),
    ensures
        apply_steps(apply_steps(h, steps), steps) == apply_steps(h, steps),
{
    let once = apply_steps(h, steps);
    let twice = apply_steps(once, steps);
    assert forall|k: Seq<char>| #[trigger] files_agree_at(twice, once, k) by {
        if is_staging_of(steps, k) || is_dest_of(steps, k) {
            lemma_steps_agree(once, h, steps, k);
        } else {
            lemma_steps_untouched(once, steps, k);
        }
    }
    assert(twice.files =~= once.files) by {
        assert forall|k: Seq<char>|
            #[trigger] twice.files.contains_key(k) == once.files.contains_key(k) && (
            twice.files.contains_key(k) ==> twice.files[k] == once.files[k]) by {
            assert(files_agree_at(twice, once, k));
        }
    }
    assert(twice.dirs =~= once.dirs) by {
        lemma_steps_dirs(h, steps);
        lemma_steps_dirs(once, steps);
    }
}

} // verus!
