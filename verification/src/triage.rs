//! Post-run triage: deciding where failed and missed files go on disk.
//!
//! After a recognition run, each failed file is assigned destination subject
//! folders according to the configured strategy, and each destination gets
//! the file (copied or moved) together with an empty sentinel recording the
//! original file name.  Missed files go into a separate tree mirroring
//! their own subject folders.  The functions here only compute the plan, as
//! a list of filesystem actions in execution order; carrying it out is the
//! caller's business.

use vstd::prelude::*;
use vstd::string::StrSliceExecFns;
use vstd::string::StringExecFns;

use crate::config::ErrorBehavior;
use crate::config::ErrorConfiguration;
use crate::config::PostRecognizeStrategy;
use crate::errors::ErrorModel;
use crate::errors::ProcessingError;
use crate::paths::file_name;
use crate::paths::file_stem;
use crate::paths::join_path;
use crate::paths::concat_str;
use crate::paths::parent;
use crate::paths::spec_file_name;
use crate::paths::spec_file_stem;
use crate::paths::spec_join;
use crate::paths::spec_parent;
use crate::result::view_faces;
use crate::result::view_strings;
use crate::result::FaceProcessingResult;
use crate::result::FailureFace;
use crate::result::FailureModel;
use crate::result::ResultModel;
use crate::result::Subject;

verus! {

/// One step of a triage plan, in execution order.
#[derive(Debug, PartialEq, Eq)]
pub enum FsAction {
    /// Create a directory and any missing ancestors.
    CreateDirAll(String),
    /// Create an empty file.
    CreateEmptyFile(String),
    /// Copy a file, leaving the source in place.
    CopyFile { from: String, to: String },
    /// Rename a file to a new path.
    RenameFile { from: String, to: String },
    /// Delete a file.
    RemoveFile(String),
}

/// Mathematical model of an [`FsAction`].
#[verifier::ext_equal]
pub enum ActionModel {
    CreateDirAll(Seq<char>),
    CreateEmptyFile(Seq<char>),
    CopyFile { from: Seq<char>, to: Seq<char> },
    RenameFile { from: Seq<char>, to: Seq<char> },
    RemoveFile(Seq<char>),
}

impl View for FsAction {
    type V = ActionModel;

    open spec fn view(&self) -> ActionModel {
        match self {
            FsAction::CreateDirAll(p) => ActionModel::CreateDirAll(p@),
            FsAction::CreateEmptyFile(p) => ActionModel::CreateEmptyFile(p@),
            FsAction::CopyFile { from, to } => ActionModel::CopyFile { from: from@, to: to@ },
            FsAction::RenameFile { from, to } => ActionModel::RenameFile { from: from@, to: to@ },
            FsAction::RemoveFile(p) => ActionModel::RemoveFile(p@),
        }
    }
}

/// The views of a vector of actions.
pub open spec fn view_actions(v: Seq<FsAction>) -> Seq<ActionModel> {
    v.map_values(|a: FsAction| a@)
}

/// `i` points at the candidate with the highest similarity, and at the
/// first-encountered one on a tie.
pub open spec fn is_first_max(subjects: Seq<Subject>, i: int) -> bool {
    &&& 0 <= i < subjects.len()
    &&& forall|j: int|
        0 <= j < subjects.len() ==> subjects[j].similarity <= subjects[i].similarity
    &&& forall|j: int| 0 <= j < i ==> subjects[j].similarity < subjects[i].similarity
}

/// The index of the first-encountered maximum of a non-empty candidate
/// list.
pub open spec fn spec_first_max(subjects: Seq<Subject>) -> int {
    choose|i: int| is_first_max(subjects, i)
}

/// At most one index can be the first-encountered maximum.
pub proof fn lemma_first_max_unique(subjects: Seq<Subject>, i: int, j: int)
    requires
        is_first_max(subjects, i),
        is_first_max(subjects, j),
    ensures
        i == j,
{
    if i < j {
        assert(subjects[i].similarity < subjects[j].similarity);
        assert(subjects[j].similarity <= subjects[i].similarity);
    }
    if j < i {
        assert(subjects[j].similarity < subjects[i].similarity);
        assert(subjects[i].similarity <= subjects[j].similarity);
    }
}

/// A witness pins down `spec_first_max`.
pub proof fn lemma_spec_first_max(subjects: Seq<Subject>, i: int)
    requires
        is_first_max(subjects, i),
    ensures
        spec_first_max(subjects) == i,
{
    assert(is_first_max(subjects, spec_first_max(subjects)));
    lemma_first_max_unique(subjects, i, spec_first_max(subjects));
}

/// The candidate with the highest similarity; on a tie, the one
/// encountered first.  An empty candidate list has none.
pub fn max_similarity_subject(subjects: &Vec<Subject>) -> (r: Option<usize>)
    ensures
        r is Some <==> subjects@.len() > 0,
        match r {
            Some(i) => is_first_max(subjects@, i as int),
            None => true,
        },
{
    if subjects.len() == 0 {
        return None;
    }
    let mut idx: usize = 0;
    let mut i: usize = 1;
    while i < subjects.len()
        invariant
            0 <= idx < i <= subjects@.len(),
            forall|j: int|
                0 <= j < i ==> subjects@[j].similarity <= subjects@[idx as int].similarity,
            forall|j: int| 0 <= j < idx ==> subjects@[j].similarity < subjects@[idx as int].similarity,
        decreases subjects@.len() - i,
    {
        if subjects[i].similarity > subjects[idx].similarity {
            idx = i;
        }
        i = i + 1;
    }
    Some(idx)
}

/// The candidates whose similarity strictly exceeds the threshold, in
/// order.
pub open spec fn spec_above_threshold(subjects: Seq<Subject>, threshold: u32) -> Seq<Subject>
    decreases subjects.len(),
{
    if subjects.len() == 0 {
        Seq::empty()
    } else {
        let prefix = spec_above_threshold(subjects.drop_last(), threshold);
        if subjects.last().similarity > threshold {
            prefix.push(subjects.last())
        } else {
            prefix
        }
    }
}

/// The candidates whose similarity strictly exceeds the threshold; zero
/// survivors is a valid outcome, not an error.
pub fn subjects_above_threshold(subjects: &Vec<Subject>, threshold: u32) -> (r: Vec<Subject>)
    ensures
        r@ == spec_above_threshold(subjects@, threshold),
{
    let mut out: Vec<Subject> = Vec::new();
    let mut i: usize = 0;
    proof {
        assert(subjects@.take(0int) =~= Seq::<Subject>::empty());
    }
    while i < subjects.len()
        invariant
            i <= subjects@.len(),
            out@ == spec_above_threshold(subjects@.take(i as int), threshold),
        decreases subjects@.len() - i,
    {
        proof {
            assert(subjects@.take(i + 1int).drop_last() =~= subjects@.take(i as int));
            assert(subjects@.take(i + 1int).last() == subjects@[i as int]);
        }
        if subjects[i].similarity > threshold {
            out.push(subjects[i].clone());
        }
        i = i + 1;
    }
    proof {
        assert(subjects@.take(subjects@.len() as int) =~= subjects@);
    }
    out
}

/// The names of a sequence of candidates, in order.
pub open spec fn spec_subject_names(subjects: Seq<Subject>) -> Seq<Seq<char>>
    decreases subjects.len(),
{
    if subjects.len() == 0 {
        Seq::empty()
    } else {
        spec_subject_names(subjects.drop_last()).push(subjects.last().name@)
    }
}

/// The path of a failed file.
pub open spec fn spec_face_path(face: FailureModel) -> Seq<char> {
    match face {
        FailureModel::Train(p) => p,
        FailureModel::Recognize(m) => m.path,
    }
}

/// What a face needs from its surroundings before destinations can be
/// computed: a parent folder where the strategy re-uses the subject name,
/// and a configured threshold where the strategy compares against one.
pub open spec fn spec_face_requires(
    face: FailureModel,
    strategy: PostRecognizeStrategy,
    threshold: Option<u32>,
) -> bool {
    match face {
        FailureModel::Train(p) => spec_parent(p) is Some,
        FailureModel::Recognize(m) => match strategy {
            PostRecognizeStrategy::KeepAsIs => spec_parent(m.path) is Some,
            PostRecognizeStrategy::MaxSimilarity => true,
            PostRecognizeStrategy::AboveThreshold => threshold is Some,
        },
    }
}

/// The destination subject names of one failed file.
///
/// A training failure keeps its own subject folder.  A recognition failure
/// follows the strategy: its own folder for `KeepAsIs`; the single
/// first-encountered maximum candidate for `MaxSimilarity`, where an empty
/// candidate list is an error; every candidate strictly above the threshold
/// for `AboveThreshold`, possibly none.
pub open spec fn spec_face_destinations(
    face: FailureModel,
    strategy: PostRecognizeStrategy,
    threshold: Option<u32>,
) -> Result<Seq<Seq<char>>, ErrorModel> {
    match face {
        FailureModel::Train(p) => Result::Ok(seq![spec_file_stem(spec_parent(p)->Some_0)]),
        FailureModel::Recognize(m) => match strategy {
            PostRecognizeStrategy::KeepAsIs => Result::Ok(
                seq![spec_file_stem(spec_parent(m.path)->Some_0)],
            ),
            PostRecognizeStrategy::MaxSimilarity => if m.subjects.len() == 0 {
                Result::Err(ErrorModel::MissingCandidates(m.path))
            } else {
                Result::Ok(seq![m.subjects[spec_first_max(m.subjects)].name@])
            },
            PostRecognizeStrategy::AboveThreshold => Result::Ok(
                spec_subject_names(spec_above_threshold(m.subjects, threshold->Some_0)),
            ),
        },
    }
}

/// Compute the destination subject names of one failed file, as
/// [`spec_face_destinations`] states them.
pub fn failure_destinations(
    face: &FailureFace,
    strategy: PostRecognizeStrategy,
    threshold: Option<u32>,
) -> (r: Result<Vec<String>, ProcessingError>)
    requires
        spec_face_requires(face@, strategy, threshold),
    ensures
        match r {
            Ok(names) => spec_face_destinations(face@, strategy, threshold) == Result::<
                Seq<Seq<char>>,
                ErrorModel,
            >::Ok(view_strings(names@)),
            Err(e) => spec_face_destinations(face@, strategy, threshold) == Result::<
                Seq<Seq<char>>,
                ErrorModel,
            >::Err(e@),
        },
{
    match face {
        FailureFace::Train(p) => {
            let names = vec![stem_of_parent(p.as_str())];
            proof {
                assert(view_strings(names@) =~= seq![spec_file_stem(spec_parent(p@)->Some_0)]);
            }
            Ok(names)
        },
        FailureFace::Recognize(m) => {
            match strategy {
                PostRecognizeStrategy::KeepAsIs => {
                    let names = vec![stem_of_parent(m.path.as_str())];
                    proof {
                        assert(view_strings(names@) =~= seq![
                            spec_file_stem(spec_parent(m.path@)->Some_0),
                        ]);
                    }
                    Ok(names)
                },
                PostRecognizeStrategy::MaxSimilarity => {
                    match max_similarity_subject(&m.subjects) {
                        None => Err(ProcessingError::MissingCandidates(m.path.clone())),
                        Some(i) => {
                            proof {
                                lemma_spec_first_max(m.subjects@, i as int);
                            }
                            let names = vec![m.subjects[i].name.clone()];
                            proof {
                                assert(view_strings(names@) =~= seq![
                                    m.subjects@[spec_first_max(m.subjects@)].name@,
                                ]);
                            }
                            Ok(names)
                        },
                    }
                },
                PostRecognizeStrategy::AboveThreshold => {
                    let t = match threshold {
                        Some(t) => t,
                        None => {
                            proof {
                                assert(false);
                            }
                            0
                        },
                    };
                    let picked = subjects_above_threshold(&m.subjects, t);
                    let mut names: Vec<String> = Vec::new();
                    let mut i: usize = 0;
                    proof {
                        assert(picked@.take(0int) =~= Seq::<Subject>::empty());
                        assert(view_strings(names@) =~= spec_subject_names(picked@.take(0int)));
                    }
                    while i < picked.len()
                        invariant
                            i <= picked@.len(),
                            view_strings(names@) == spec_subject_names(picked@.take(i as int)),
                        decreases picked@.len() - i,
                    {
                        proof {
                            assert(picked@.take(i + 1int).drop_last() =~= picked@.take(i as int));
                            assert(picked@.take(i + 1int).last() == picked@[i as int]);
                        }
                        let ghost before = names@;
                        names.push(picked[i].name.clone());
                        proof {
                            assert(view_strings(names@) =~= view_strings(before).push(
                                picked@[i as int].name@,
                            ));
                        }
                        i = i + 1;
                    }
                    proof {
                        assert(picked@.take(picked@.len() as int) =~= picked@);
                    }
                    Ok(names)
                },
            }
        },
    }
}

/// Folder creations and sentinels for each destination of one file: the
/// subject folder, then an empty sentinel named after the original file.
pub open spec fn spec_dest_preps(names: Seq<Seq<char>>, fname: Seq<char>, root: Seq<char>) -> Seq<
    ActionModel,
>
    decreases names.len(),
{
    if names.len() == 0 {
        Seq::empty()
    } else {
        let folder = spec_join(root, names.last());
        spec_dest_preps(names.drop_last(), fname, root) + seq![
            ActionModel::CreateDirAll(folder),
            ActionModel::CreateEmptyFile(spec_join(folder, fname + ".original_name"@)),
        ]
    }
}

/// One copy of the file into every destination folder, in order.
pub open spec fn spec_copies(
    names: Seq<Seq<char>>,
    path: Seq<char>,
    fname: Seq<char>,
    root: Seq<char>,
) -> Seq<ActionModel>
    decreases names.len(),
{
    if names.len() == 0 {
        Seq::empty()
    } else {
        spec_copies(names.drop_last(), path, fname, root).push(
            ActionModel::CopyFile { from: path, to: spec_join(spec_join(root, names.last()), fname) },
        )
    }
}

/// The placement of one failed file into its destination folders.
///
/// With no destination nothing happens.  Otherwise every destination gets
/// its folder and sentinel first.  A single destination under `Move` takes
/// the file by one rename; in every other case the file is copied into each
/// destination, and under `Move` the source is removed only after all the
/// copies.
pub open spec fn spec_face_actions(
    path: Seq<char>,
    names: Seq<Seq<char>>,
    behavior: ErrorBehavior,
    root: Seq<char>,
) -> Seq<ActionModel> {
    if names.len() == 0 {
        Seq::empty()
    } else {
        let fname = spec_file_name(path);
        let placement = if names.len() == 1 && behavior is Move {
            seq![
                ActionModel::RenameFile {
                    from: path,
                    to: spec_join(spec_join(root, names[0]), fname),
                },
            ]
        } else {
            spec_copies(names, path, fname, root) + if behavior is Move {
                seq![ActionModel::RemoveFile(path)]
            } else {
                Seq::empty()
            }
        };
        spec_dest_preps(names, fname, root) + placement
    }
}

/// Compute the actions that place one failed file, as
/// [`spec_face_actions`] states them over the file's destinations.
pub fn face_actions(
    face: &FailureFace,
    strategy: PostRecognizeStrategy,
    threshold: Option<u32>,
    behavior: ErrorBehavior,
    root: &str,
) -> (r: Result<Vec<FsAction>, ProcessingError>)
    requires
        spec_face_requires(face@, strategy, threshold),
    ensures
        match r {
            Ok(actions) => spec_face_destinations(face@, strategy, threshold) is Ok
                && view_actions(actions@) == spec_face_actions(
                spec_face_path(face@),
                spec_face_destinations(face@, strategy, threshold)->Ok_0,
                behavior,
                root@,
            ),
            Err(e) => spec_face_destinations(face@, strategy, threshold) == Result::<
                Seq<Seq<char>>,
                ErrorModel,
            >::Err(e@),
        },
{
    let names = match failure_destinations(face, strategy, threshold) {
        Ok(n) => n,
        Err(e) => {
            return Err(e);
        },
    };
    let ghost nv = view_strings(names@);
    let mut actions: Vec<FsAction> = Vec::new();
    if names.len() == 0 {
        proof {
            assert(view_actions(actions@) =~= Seq::<ActionModel>::empty());
        }
        return Ok(actions);
    }
    let source: &String = match face {
        FailureFace::Train(p) => p,
        FailureFace::Recognize(m) => &m.path,
    };
    let fname = file_name(source.as_str());
    let sentinel_name = concat_str(fname, ".original_name");
    let mut i: usize = 0;
    proof {
        assert(nv.take(0int) =~= Seq::<Seq<char>>::empty());
        assert(view_actions(actions@) =~= spec_dest_preps(nv.take(0int), fname@, root@));
    }
    while i < names.len()
        invariant
            i <= names@.len(),
            nv == view_strings(names@),
            fname@ == spec_file_name(source@),
            view_actions(actions@) == spec_dest_preps(nv.take(i as int), fname@, root@),
            sentinel_name@ == fname@ + ".original_name"@,
        decreases names@.len() - i,
    {
        proof {
            assert(nv.take(i + 1int).drop_last() =~= nv.take(i as int));
            assert(nv.take(i + 1int).last() == names@[i as int]@);
        }
        let folder = join_path(root, names[i].as_str());
        let sentinel = join_path(folder.as_str(), sentinel_name.as_str());
        let ghost before = actions@;
        actions.push(FsAction::CreateDirAll(folder));
        actions.push(FsAction::CreateEmptyFile(sentinel));
        proof {
            assert(view_actions(actions@) =~= view_actions(before) + seq![
                ActionModel::CreateDirAll(spec_join(root@, names@[i as int]@)),
                ActionModel::CreateEmptyFile(
                    spec_join(spec_join(root@, names@[i as int]@), fname@ + ".original_name"@),
                ),
            ]);
        }
        i = i + 1;
    }
    proof {
        assert(nv.take(names@.len() as int) =~= nv);
    }
    if names.len() == 1 && behavior == ErrorBehavior::Move {
        let folder = join_path(root, names[0].as_str());
        let to = join_path(folder.as_str(), fname);
        let ghost before = actions@;
        actions.push(FsAction::RenameFile { from: source.clone(), to });
        proof {
            assert(view_actions(actions@) =~= view_actions(before).push(
                ActionModel::RenameFile {
                    from: source@,
                    to: spec_join(spec_join(root@, nv[0int]), fname@),
                },
            ));
            assert(view_actions(actions@) =~= spec_face_actions(source@, nv, behavior, root@));
        }
    } else {
        let mut j: usize = 0;
        proof {
            assert(nv.take(0int) =~= Seq::<Seq<char>>::empty());
            assert(view_actions(actions@) =~= spec_dest_preps(nv, fname@, root@) + spec_copies(
                nv.take(0int),
                source@,
                fname@,
                root@,
            ));
        }
        while j < names.len()
            invariant
                j <= names@.len(),
                nv == view_strings(names@),
                fname@ == spec_file_name(source@),
                view_actions(actions@) == spec_dest_preps(nv, fname@, root@) + spec_copies(
                    nv.take(j as int),
                    source@,
                    fname@,
                    root@,
                ),
            decreases names@.len() - j,
        {
            proof {
                assert(nv.take(j + 1int).drop_last() =~= nv.take(j as int));
                assert(nv.take(j + 1int).last() == names@[j as int]@);
            }
            let folder = join_path(root, names[j].as_str());
            let to = join_path(folder.as_str(), fname);
            let ghost before = actions@;
            actions.push(FsAction::CopyFile { from: source.clone(), to });
            proof {
                assert(view_actions(actions@) =~= view_actions(before).push(
                    ActionModel::CopyFile {
                        from: source@,
                        to: spec_join(spec_join(root@, nv[j as int]), fname@),
                    },
                ));
            }
            j = j + 1;
        }
        proof {
            assert(nv.take(names@.len() as int) =~= nv);
        }
        if behavior == ErrorBehavior::Move {
            let ghost before = actions@;
            actions.push(FsAction::RemoveFile(source.clone()));
            proof {
                assert(view_actions(actions@) =~= view_actions(before).push(
                    ActionModel::RemoveFile(source@),
                ));
            }
        }
        proof {
            assert(view_actions(actions@) =~= spec_face_actions(source@, nv, behavior, root@));
        }
    }
    Ok(actions)
}

/// The full failure plan: each failed file's folder creations, sentinel
/// and placement, in file order; the first file whose destinations cannot
/// be computed fails the whole plan.
pub open spec fn spec_failure_plan(
    faces: Seq<FailureModel>,
    strategy: PostRecognizeStrategy,
    threshold: Option<u32>,
    behavior: ErrorBehavior,
    root: Seq<char>,
) -> Result<Seq<ActionModel>, ErrorModel>
    decreases faces.len(),
{
    if faces.len() == 0 {
        Result::Ok(Seq::empty())
    } else {
        match spec_failure_plan(faces.drop_last(), strategy, threshold, behavior, root) {
            Result::Err(e) => Result::Err(e),
            Result::Ok(acts) => match spec_face_destinations(faces.last(), strategy, threshold) {
                Result::Err(e) => Result::Err(e),
                Result::Ok(names) => Result::Ok(
                    acts + spec_face_actions(spec_face_path(faces.last()), names, behavior, root),
                ),
            },
        }
    }
}

/// Once one face fails, the whole plan fails with that face's error.
pub proof fn lemma_failure_plan_err(
    faces: Seq<FailureModel>,
    strategy: PostRecognizeStrategy,
    threshold: Option<u32>,
    behavior: ErrorBehavior,
    root: Seq<char>,
    i: int,
)
    requires
        0 <= i < faces.len(),
        spec_failure_plan(faces.take(i), strategy, threshold, behavior, root) is Ok,
        spec_face_destinations(faces[i], strategy, threshold) is Err,
    ensures
        spec_failure_plan(faces, strategy, threshold, behavior, root) == Result::<
            Seq<ActionModel>,
            ErrorModel,
        >::Err(spec_face_destinations(faces[i], strategy, threshold)->Err_0),
    decreases faces.len(),
{
    if faces.len() == i + 1 {
        assert(faces.drop_last() =~= faces.take(i));
        assert(faces.last() == faces[i]);
    } else {
        assert(faces.drop_last().take(i) =~= faces.take(i));
        assert(faces.drop_last()[i] == faces[i]);
        lemma_failure_plan_err(faces.drop_last(), strategy, threshold, behavior, root, i);
    }
}

/// The failure plan with its root folder creation in front.
pub open spec fn spec_failure_output(
    faces: Seq<FailureModel>,
    strategy: PostRecognizeStrategy,
    threshold: Option<u32>,
    behavior: ErrorBehavior,
    out: Seq<char>,
) -> Result<Seq<ActionModel>, ErrorModel> {
    let root = spec_join(out, "failure_faces"@);
    match spec_failure_plan(faces, strategy, threshold, behavior, root) {
        Result::Err(e) => Result::Err(e),
        Result::Ok(acts) => Result::Ok(seq![ActionModel::CreateDirAll(root)] + acts),
    }
}

/// Plan the placement of all failed files under `output_dir`, as
/// [`spec_failure_output`] states it.
pub fn plan_failure_faces(
    output_dir: &str,
    strategy: PostRecognizeStrategy,
    threshold: Option<u32>,
    behavior: ErrorBehavior,
    faces: &Vec<FailureFace>,
) -> (r: Result<Vec<FsAction>, ProcessingError>)
    requires
        !(behavior is Ignore),
        forall|i: int|
            0 <= i < faces@.len() ==> #[trigger] spec_face_requires(faces@[i]@, strategy, threshold),
    ensures
        match r {
            Ok(actions) => spec_failure_output(
                view_faces(faces@),
                strategy,
                threshold,
                behavior,
                output_dir@,
            ) == Result::<Seq<ActionModel>, ErrorModel>::Ok(view_actions(actions@)),
            Err(e) => spec_failure_output(
                view_faces(faces@),
                strategy,
                threshold,
                behavior,
                output_dir@,
            ) == Result::<Seq<ActionModel>, ErrorModel>::Err(e@),
        },
{
    let ghost fv = view_faces(faces@);
    let root = join_path(output_dir, "failure_faces");
    let mut actions: Vec<FsAction> = Vec::new();
    actions.push(FsAction::CreateDirAll(root.clone()));
    let mut i: usize = 0;
    proof {
        assert(fv.take(0int) =~= Seq::<FailureModel>::empty());
        assert(view_actions(actions@) =~= seq![ActionModel::CreateDirAll(root@)]
            + spec_failure_plan(fv.take(0int), strategy, threshold, behavior, root@)->Ok_0);
    }
    while i < faces.len()
        invariant
            i <= faces@.len(),
            fv == view_faces(faces@),
            root@ == spec_join(output_dir@, "failure_faces"@),
            forall|k: int|
                0 <= k < faces@.len() ==> #[trigger] spec_face_requires(
                    faces@[k]@,
                    strategy,
                    threshold,
                ),
            spec_failure_plan(fv.take(i as int), strategy, threshold, behavior, root@) is Ok,
            view_actions(actions@) == seq![ActionModel::CreateDirAll(root@)] + spec_failure_plan(
                fv.take(i as int),
                strategy,
                threshold,
                behavior,
                root@,
            )->Ok_0,
        decreases faces@.len() - i,
    {
        proof {
            assert(fv.take(i + 1int).drop_last() =~= fv.take(i as int));
            assert(fv.take(i + 1int).last() == faces@[i as int]@);
        }
        match face_actions(&faces[i], strategy, threshold, behavior, root.as_str()) {
            Err(e) => {
                proof {
                    lemma_failure_plan_err(fv, strategy, threshold, behavior, root@, i as int);
                }
                return Err(e);
            },
            Ok(acts) => {
                let ghost av = acts@;
                let mut acts = acts;
                let ghost before = actions@;
                actions.append(&mut acts);
                proof {
                    assert(view_actions(actions@) =~= view_actions(before) + view_actions(av));
                }
            },
        }
        i = i + 1;
    }
    proof {
        assert(fv.take(faces@.len() as int) =~= fv);
    }
    Ok(actions)
}

/// The plan for the missed files: each goes into a folder named after its
/// own subject under the missed tree, copied or renamed as the behavior
/// asks, or merely listed when the behavior ignores errors.
pub open spec fn spec_missed_plan(
    files: Seq<Seq<char>>,
    behavior: ErrorBehavior,
    root: Seq<char>,
) -> Seq<ActionModel>
    decreases files.len(),
{
    if files.len() == 0 {
        Seq::empty()
    } else {
        let f = files.last();
        let person = spec_join(root, spec_file_stem(spec_parent(f)->Some_0));
        let placed = match behavior {
            ErrorBehavior::Copy => seq![
                ActionModel::CopyFile { from: f, to: spec_join(person, spec_file_name(f)) },
            ],
            ErrorBehavior::Move => seq![
                ActionModel::RenameFile { from: f, to: spec_join(person, spec_file_name(f)) },
            ],
            ErrorBehavior::Ignore => Seq::empty(),
        };
        spec_missed_plan(files.drop_last(), behavior, root) + seq![
            ActionModel::CreateDirAll(person),
        ] + placed
    }
}

/// The missed plan with its root folder creation in front.
pub open spec fn spec_missed_output(
    files: Seq<Seq<char>>,
    behavior: ErrorBehavior,
    out: Seq<char>,
) -> Seq<ActionModel> {
    let root = spec_join(out, "missed_faces"@);
    seq![ActionModel::CreateDirAll(root)] + spec_missed_plan(files, behavior, root)
}

/// Plan the placement of all missed files under `output_dir`, as
/// [`spec_missed_output`] states it.
pub fn plan_missed_faces(output_dir: &str, behavior: ErrorBehavior, files: &Vec<String>) -> (actions:
    Vec<FsAction>)
    requires
        forall|i: int| 0 <= i < files@.len() ==> (#[trigger] spec_parent(files@[i]@)) is Some,
    ensures
        view_actions(actions@) == spec_missed_output(view_strings(files@), behavior, output_dir@),
{
    let ghost sv = view_strings(files@);
    let root = join_path(output_dir, "missed_faces");
    let mut actions: Vec<FsAction> = Vec::new();
    actions.push(FsAction::CreateDirAll(root.clone()));
    let mut i: usize = 0;
    proof {
        assert(sv.take(0int) =~= Seq::<Seq<char>>::empty());
        assert(view_actions(actions@) =~= seq![ActionModel::CreateDirAll(root@)]
            + spec_missed_plan(sv.take(0int), behavior, root@));
    }
    while i < files.len()
        invariant
            i <= files@.len(),
            sv == view_strings(files@),
            root@ == spec_join(output_dir@, "missed_faces"@),
            forall|k: int| 0 <= k < files@.len() ==> (#[trigger] spec_parent(files@[k]@)) is Some,
            view_actions(actions@) == seq![ActionModel::CreateDirAll(root@)] + spec_missed_plan(
                sv.take(i as int),
                behavior,
                root@,
            ),
        decreases files@.len() - i,
    {
        proof {
            assert(sv.take(i + 1int).drop_last() =~= sv.take(i as int));
            assert(sv.take(i + 1int).last() == files@[i as int]@);
        }
        let stem = stem_of_parent(files[i].as_str());
        let person = join_path(root.as_str(), stem.as_str());
        let fname = file_name(files[i].as_str());
        let target = join_path(person.as_str(), fname);
        let ghost before = actions@;
        let ghost pv = person@;
        let ghost fw = files@[i as int]@;
        actions.push(FsAction::CreateDirAll(person));
        match behavior {
            ErrorBehavior::Copy => {
                actions.push(FsAction::CopyFile { from: files[i].clone(), to: target });
                proof {
                    assert(view_actions(actions@) =~= view_actions(before) + seq![
                        ActionModel::CreateDirAll(pv),
                        ActionModel::CopyFile { from: fw, to: spec_join(pv, spec_file_name(fw)) },
                    ]);
                }
            },
            ErrorBehavior::Move => {
                actions.push(FsAction::RenameFile { from: files[i].clone(), to: target });
                proof {
                    assert(view_actions(actions@) =~= view_actions(before) + seq![
                        ActionModel::CreateDirAll(pv),
                        ActionModel::RenameFile { from: fw, to: spec_join(pv, spec_file_name(fw)) },
                    ]);
                }
            },
            ErrorBehavior::Ignore => {
                proof {
                    assert(view_actions(actions@) =~= view_actions(before) + seq![
                        ActionModel::CreateDirAll(pv),
                    ]);
                }
            },
        }
        proof {
            assert(view_actions(actions@) =~= seq![ActionModel::CreateDirAll(root@)]
                + spec_missed_plan(sv.take(i + 1int), behavior, root@));
        }
        i = i + 1;
    }
    proof {
        assert(sv.take(files@.len() as int) =~= sv);
    }
    actions
}

/// What the whole error-output step does for one finished result: nothing
/// when the behavior ignores errors, otherwise the failure plan (when any
/// file failed) followed by the missed plan (when any file was missed).
pub open spec fn spec_error_output(cfg: ErrorConfiguration, m: ResultModel) -> Result<
    Seq<ActionModel>,
    ErrorModel,
> {
    if cfg.error_behavior is Ignore {
        Result::Ok(Seq::empty())
    } else {
        let out = match cfg.output_dir {
            Some(d) => d@,
            None => Seq::empty(),
        };
        let fail_part = if m.failure > 0 {
            spec_failure_output(
                m.failure_faces,
                cfg.post_recognize_strategy,
                cfg.above_threshold,
                cfg.error_behavior,
                out,
            )
        } else {
            Result::Ok(Seq::empty())
        };
        match fail_part {
            Result::Err(e) => Result::Err(e),
            Result::Ok(fa) => Result::Ok(
                fa + if m.missed > 0 {
                    spec_missed_output(m.missed_faces, cfg.error_behavior, out)
                } else {
                    Seq::empty()
                },
            ),
        }
    }
}

/// Plan the whole error-output step of a finished run, as
/// [`spec_error_output`] states it.
pub fn plan_error_output(config: &ErrorConfiguration, result: &FaceProcessingResult) -> (r: Result<
    Vec<FsAction>,
    ProcessingError,
>)
    requires
        !(config.error_behavior is Ignore) && result.failure_count > 0 ==> config.output_dir
            is Some && (forall|i: int|
            0 <= i < result.failure_faces@.len() ==> #[trigger] spec_face_requires(
                result.failure_faces@[i]@,
                config.post_recognize_strategy,
                config.above_threshold,
            )),
        !(config.error_behavior is Ignore) && result.missed_count > 0 ==> config.output_dir is Some
            && (forall|i: int|
            0 <= i < result.missed_faces@.len() ==> (#[trigger] spec_parent(
                result.missed_faces@[i]@,
            )) is Some),
    ensures
        match r {
            Ok(actions) => spec_error_output(*config, result@) == Result::<
                Seq<ActionModel>,
                ErrorModel,
            >::Ok(view_actions(actions@)),
            Err(e) => spec_error_output(*config, result@) == Result::<
                Seq<ActionModel>,
                ErrorModel,
            >::Err(e@),
        },
{
    if config.error_behavior == ErrorBehavior::Ignore {
        let actions: Vec<FsAction> = Vec::new();
        proof {
            assert(view_actions(actions@) =~= Seq::<ActionModel>::empty());
        }
        return Ok(actions);
    }
    match &config.output_dir {
        None => {
            let actions: Vec<FsAction> = Vec::new();
            proof {
                assert(view_actions(actions@) =~= Seq::<ActionModel>::empty());
            }
            Ok(actions)
        },
        Some(d) => {
            proof {
                assert(view_faces(result.failure_faces@) =~= result@.failure_faces);
                assert(view_strings(result.missed_faces@) =~= result@.missed_faces);
            }
            let mut actions: Vec<FsAction> = if result.failure_count > 0 {
                match plan_failure_faces(
                    d.as_str(),
                    config.post_recognize_strategy,
                    config.above_threshold,
                    config.error_behavior,
                    &result.failure_faces,
                ) {
                    Ok(a) => a,
                    Err(e) => {
                        return Err(e);
                    },
                }
            } else {
                Vec::new()
            };
            if result.missed_count > 0 {
                let mut more = plan_missed_faces(
                    d.as_str(),
                    config.error_behavior,
                    &result.missed_faces,
                );
                let ghost mv = more@;
                let ghost before = actions@;
                actions.append(&mut more);
                proof {
                    assert(view_actions(actions@) =~= view_actions(before) + view_actions(mv));
                }
            }
            proof {
                assert(view_actions(actions@) =~= spec_error_output(*config, result@)->Ok_0);
            }
            Ok(actions)
        },
    }
}

/// The folder name of the file's own subject: the stem of its parent.
fn stem_of_parent(path: &str) -> (r: String)
    requires
        spec_parent(path@) is Some,
    ensures
        r@ == spec_file_stem(spec_parent(path@)->Some_0),
{
    let par = match parent(path) {
        Some(par) => par,
        None => {
            proof {
                assert(false);
            }
            path
        },
    };
    String::from_str(file_stem(par))
}

} // verus!
