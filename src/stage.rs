use vstd::prelude::*;
use vstd::string::{StrSliceExecFns, StringExecFns};

verus! {

/// One filesystem step of preparing a build workspace.
#[derive(Clone, Debug)]
pub enum StagingStep {
    /// Create the directory and its parents if absent.
    CreateDir(String),
    /// Remove one file.
    RemoveFile(String),
    /// Remove whatever file or directory stands at the path, if any.
    ClearPath(String),
    /// Make `from` a link to the directory `to`.
    Link { from: String, to: String },
}

/// A step with its paths as text.
pub ghost enum StepModel {
    CreateDir(Seq<char>),
    RemoveFile(Seq<char>),
    ClearPath(Seq<char>),
    Link(Seq<char>, Seq<char>),
}

impl View for StagingStep {
    type V = StepModel;

    open spec fn view(&self) -> StepModel {
        match self {
            StagingStep::CreateDir(p) => StepModel::CreateDir(p@),
            StagingStep::RemoveFile(p) => StepModel::RemoveFile(p@),
            StagingStep::ClearPath(p) => StepModel::ClearPath(p@),
            StagingStep::Link { from, to } => StepModel::Link(from@, to@),
        }
    }
}

pub open spec fn steps_view(s: Seq<StagingStep>) -> Seq<StepModel> {
    s.map_values(|x: StagingStep| x@)
}

/// A file of the engine's fingerprint store: the directory holding it and
/// its name.
#[derive(Clone, Debug)]
pub struct Fingerprint {
    pub dir: String,
    pub name: String,
}

impl View for Fingerprint {
    type V = (Seq<char>, Seq<char>);

    open spec fn view(&self) -> (Seq<char>, Seq<char>) {
        (self.dir@, self.name@)
    }
}

pub open spec fn fingerprints_view(s: Seq<Fingerprint>) -> Seq<(Seq<char>, Seq<char>)> {
    s.map_values(|x: Fingerprint| x@)
}

/// A fingerprint entry left by an earlier documentation build.
pub open spec fn is_stale(name: Seq<char>) -> bool {
    name.len() >= 4 && name[0] == 'd' && name[1] == 'o' && name[2] == 'c' && name[3] == '-'
}

/// The entries that cleanup keeps, in order.
pub open spec fn kept(s: Seq<(Seq<char>, Seq<char>)>) -> Seq<(Seq<char>, Seq<char>)>
    decreases s.len(),
{
    if s.len() == 0 {
        s
    } else if is_stale(s.last().1) {
        kept(s.drop_last())
    } else {
        kept(s.drop_last()).push(s.last())
    }
}

/// The removals that cleanup performs.
pub open spec fn removals(s: Seq<(Seq<char>, Seq<char>)>) -> Seq<StepModel>
    decreases s.len(),
{
    if s.len() == 0 {
        Seq::empty()
    } else if is_stale(s.last().1) {
        removals(s.drop_last()).push(StepModel::RemoveFile(s.last().0 + seq!['/'] + s.last().1))
    } else {
        removals(s.drop_last())
    }
}

pub open spec fn fingerprint_dir(target: Seq<char>) -> Seq<char> {
    target + "/debug/.fingerprint"@
}

pub open spec fn doc_dir(target: Seq<char>) -> Seq<char> {
    target + "/doc"@
}

/// The steps that prepare the workspace at `target` so that the engine's
/// documentation output lands in `publish`: create the target, drop stale
/// fingerprints, create the publish directory, clear the engine's output
/// path and link it to the publish directory.
pub open spec fn plan(target: Seq<char>, entries: Seq<(Seq<char>, Seq<char>)>, publish: Seq<char>) -> Seq<
    StepModel,
> {
    seq![StepModel::CreateDir(target)] + removals(entries) + seq![
        StepModel::CreateDir(publish),
        StepModel::ClearPath(doc_dir(target)),
        StepModel::Link(doc_dir(target), publish),
    ]
}

/// Cleanup leaves no stale entry, and staging again over what it left
/// removes nothing and keeps every entry: the listing seen by a second
/// staging with no build in between holds no stale fingerprint.
pub proof fn lemma_cleanup_idempotent(entries: Seq<(Seq<char>, Seq<char>)>)
    ensures
        forall|k: int| 0 <= k < kept(entries).len() ==> !is_stale(#[trigger] kept(entries)[k].1),
        removals(kept(entries)) == Seq::<StepModel>::empty(),
        kept(kept(entries)) == kept(entries),
    decreases entries.len(),
{
    if entries.len() > 0 {
        let init = entries.drop_last();
        lemma_cleanup_idempotent(init);
        let k0 = kept(init);
        if !is_stale(entries.last().1) {
            let k1 = k0.push(entries.last());
            assert(k1.drop_last() =~= k0);
            assert(kept(entries) == k1);
        }
    }
}

/// Whether a fingerprint entry was left by an earlier documentation build.
pub fn is_stale_fingerprint(name: &str) -> (r: bool)
    ensures
        r == is_stale(name@),
{
    if name.unicode_len() < 4 {
        return false;
    }
    name.get_char(0) == 'd' && name.get_char(1) == 'o' && name.get_char(2) == 'c' && name.get_char(3)
        == '-'
}

fn join(dir: &str, name: &str) -> (r: String)
    ensures
        r@ == dir@ + seq!['/'] + name@,
{
    let mut s = String::from_str(dir);
    s.append("/");
    s.append(name);
    proof {
        reveal_strlit("/");
    }
    s
}

fn suffixed(base: &str, tail: &'static str) -> (r: String)
    ensures
        r@ == base@ + tail@,
{
    let mut s = String::from_str(base);
    s.append(tail);
    s
}

/// The directory of the engine's fingerprint store under `target`.
pub fn fingerprint_path(target: &str) -> (r: String)
    ensures
        r@ == fingerprint_dir(target@),
{
    suffixed(target, "/debug/.fingerprint")
}

/// The steps that stage the workspace `target`, whose fingerprint store holds
/// `fingerprints`, for publication into `publish`.
pub fn staging_plan(target: &str, fingerprints: &Vec<Fingerprint>, publish: &str) -> (r: Vec<StagingStep>)
    ensures
        steps_view(r@) == plan(target@, fingerprints_view(fingerprints@), publish@),
{
    let mut steps: Vec<StagingStep> = Vec::new();
    steps.push(StagingStep::CreateDir(String::from_str(target)));
    let mut i: usize = 0;
    while i < fingerprints.len()
        invariant
            i <= fingerprints@.len(),
            steps_view(steps@) == seq![StepModel::CreateDir(target@)] + removals(
                fingerprints_view(fingerprints@).take(i as int),
            ),
        decreases fingerprints@.len() - i,
    {
        let entry = &fingerprints[i];
        let ghost before = steps@;
        proof {
            assert(fingerprints_view(fingerprints@).take(i + 1).drop_last() =~= fingerprints_view(
                fingerprints@,
            ).take(i as int));
        }
        if is_stale_fingerprint(entry.name.as_str()) {
            steps.push(StagingStep::RemoveFile(join(entry.dir.as_str(), entry.name.as_str())));
            assert(steps_view(steps@) =~= steps_view(before).push(steps@.last()@));
        }
        i = i + 1;
    }
    let ghost before = steps@;
    let doc = suffixed(target, "/doc");
    steps.push(StagingStep::CreateDir(String::from_str(publish)));
    steps.push(StagingStep::ClearPath(doc.clone()));
    steps.push(StagingStep::Link { from: doc, to: String::from_str(publish) });
    proof {
        assert(fingerprints_view(fingerprints@).take(fingerprints@.len() as int) =~= fingerprints_view(
            fingerprints@,
        ));
        assert(steps_view(steps@) =~= steps_view(before) + seq![
            StepModel::CreateDir(publish@),
            StepModel::ClearPath(doc_dir(target@)),
            StepModel::Link(doc_dir(target@), publish@),
        ]);
    }
    steps
}

} // verus!
