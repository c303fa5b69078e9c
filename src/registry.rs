use vstd::prelude::*;
use crate::outcome::ModTime;

verus! {

/// Wait between polls and retries when none is configured, in milliseconds.
pub const DEFAULT_INTERVAL_MS: u64 = 1000;

/// One file under observation, with its transform steps and its finalize step.
///
/// `F` is the type of a transform step and `G` that of the finalize step; the
/// library only stores them and says which one to run next.
pub struct WatchedFile<F, G> {
    path: String,
    date_modified: ModTime,
    functions_on_run: Vec<F>,
    function_on_end: G,
}

impl<F, G> WatchedFile<F, G> {
    pub closed spec fn path_spec(&self) -> Seq<char> {
        self.path@
    }

    /// Modification time recorded when the file was last processed or registered.
    pub closed spec fn modified(&self) -> ModTime {
        self.date_modified
    }

    /// Transform steps, in the order they run.
    pub closed spec fn transforms(&self) -> Seq<F> {
        self.functions_on_run@
    }

    pub closed spec fn finalizer(&self) -> G {
        self.function_on_end
    }

    /// Registers `path`, whose modification time was read as `modified`.
    /// Registration fails, with that error, exactly when the time could not be read.
    pub fn new(path: &str, modified: Result<ModTime, String>, end_func: G) -> (r: Result<Self, String>)
        ensures
            modified is Err <==> r is Err,
            modified matches Err(e) ==> r == Err::<Self, String>(e),
            r matches Ok(f) ==> {
                &&& f.path_spec() == path@
                &&& f.modified() == modified->Ok_0
                &&& f.transforms().len() == 0
                &&& f.finalizer() == end_func
            },
    {
        match modified {
            Ok(t) => Ok(WatchedFile {
                path: path.to_string(),
                date_modified: t,
                functions_on_run: Vec::new(),
                function_on_end: end_func,
            }),
            Err(e) => Err(e),
        }
    }

    /// Appends one transform step after those already registered.
    pub fn add_func(&mut self, func: F)
        ensures
            final(self).transforms() == old(self).transforms().push(func),
            final(self).path_spec() == old(self).path_spec(),
            final(self).modified() == old(self).modified(),
            final(self).finalizer() == old(self).finalizer(),
    {
        self.functions_on_run.push(func);
    }

    pub fn path(&self) -> (r: &str)
        ensures
            r@ == self.path_spec(),
    {
        self.path.as_str()
    }

    pub fn transform_count(&self) -> (r: usize)
        ensures
            r == self.transforms().len(),
    {
        self.functions_on_run.len()
    }

    pub fn transform(&self, k: usize) -> (r: &F)
        requires
            k < self.transforms().len(),
        ensures
            *r == self.transforms()[k as int],
    {
        &self.functions_on_run[k]
    }

    pub fn finalize_step(&self) -> (r: &G)
        ensures
            *r == self.finalizer(),
    {
        &self.function_on_end
    }

    pub fn last_modified(&self) -> (r: ModTime)
        ensures
            r == self.modified(),
    {
        self.date_modified
    }

    pub(crate) fn set_modified(&mut self, t: ModTime)
        ensures
            final(self).modified() == t,
            final(self).path_spec() == old(self).path_spec(),
            final(self).transforms() == old(self).transforms(),
            final(self).finalizer() == old(self).finalizer(),
    {
        self.date_modified = t;
    }
}

/// The ordered set of watched files and the polling configuration.
///
/// `D` is the type of the decode step shared by all files.
pub struct FileListBuilder<D, F, G> {
    files: Vec<WatchedFile<F, G>>,
    interval_ms: u64,
    max_retries: Option<u32>,
    open_file_func: D,
    run_only_once: bool,
}

impl<D, F, G> FileListBuilder<D, F, G> {
    pub closed spec fn files(&self) -> Seq<WatchedFile<F, G>> {
        self.files@
    }

    /// Wait between polls and retries, in milliseconds.
    pub closed spec fn interval(&self) -> u64 {
        self.interval_ms
    }

    /// Cap on the attempts of one step invocation; `None` is unbounded.
    pub closed spec fn retries(&self) -> Option<u32> {
        self.max_retries
    }

    pub closed spec fn decoder(&self) -> D {
        self.open_file_func
    }

    pub closed spec fn runs_once(&self) -> bool {
        self.run_only_once
    }

    /// An empty set that polls every second, retries without bound and runs forever.
    pub fn new(open_func: D) -> (r: Self)
        ensures
            r.files().len() == 0,
            r.interval() == DEFAULT_INTERVAL_MS,
            r.retries() is None,
            r.decoder() == open_func,
            !r.runs_once(),
    {
        FileListBuilder {
            files: Vec::new(),
            interval_ms: DEFAULT_INTERVAL_MS,
            max_retries: None,
            open_file_func: open_func,
            run_only_once: false,
        }
    }

    pub fn run_only_once(self, q: bool) -> (r: Self)
        ensures
            r.runs_once() == q,
            r.files() == self.files(),
            r.interval() == self.interval(),
            r.retries() == self.retries(),
            r.decoder() == self.decoder(),
    {
        let mut s = self;
        s.run_only_once = q;
        s
    }

    /// Appends a file; duplicates are kept and watched independently.
    pub fn add_file(&mut self, file: WatchedFile<F, G>)
        ensures
            final(self).files() == old(self).files().push(file),
            final(self).interval() == old(self).interval(),
            final(self).retries() == old(self).retries(),
            final(self).decoder() == old(self).decoder(),
            final(self).runs_once() == old(self).runs_once(),
    {
        self.files.push(file);
    }

    pub fn with_interval(self, inter_ms: u64) -> (r: Self)
        ensures
            r.interval() == inter_ms,
            r.files() == self.files(),
            r.retries() == self.retries(),
            r.decoder() == self.decoder(),
            r.runs_once() == self.runs_once(),
    {
        let mut s = self;
        s.interval_ms = inter_ms;
        s
    }

    pub fn file_count(&self) -> (r: usize)
        ensures
            r == self.files().len(),
    {
        self.files.len()
    }

    pub fn file(&self, i: usize) -> (r: &WatchedFile<F, G>)
        requires
            i < self.files().len(),
        ensures
            *r == self.files()[i as int],
    {
        &self.files[i]
    }

    pub fn decode_step(&self) -> (r: &D)
        ensures
            *r == self.decoder(),
    {
        &self.open_file_func
    }

    pub fn interval_ms(&self) -> (r: u64)
        ensures
            r == self.interval(),
    {
        self.interval_ms
    }

    pub fn max_retries(&self) -> (r: Option<u32>)
        ensures
            r == self.retries(),
    {
        self.max_retries
    }

    pub fn is_run_once(&self) -> (r: bool)
        ensures
            r == self.runs_once(),
    {
        self.run_only_once
    }

    /// Records `t` as the modification time of the file at index `i`.
    pub(crate) fn set_file_modified(&mut self, i: usize, t: ModTime)
        requires
            i < old(self).files().len(),
        ensures
            final(self).files().len() == old(self).files().len(),
            final(self).files()[i as int].modified() == t,
            final(self).files()[i as int].path_spec() == old(self).files()[i as int].path_spec(),
            final(self).files()[i as int].transforms() == old(self).files()[i as int].transforms(),
            final(self).files()[i as int].finalizer() == old(self).files()[i as int].finalizer(),
            forall|j: int| 0 <= j < final(self).files().len() && j != i ==> final(self).files()[j] == old(self).files()[j],
            final(self).interval() == old(self).interval(),
            final(self).retries() == old(self).retries(),
            final(self).decoder() == old(self).decoder(),
            final(self).runs_once() == old(self).runs_once(),
    {
        self.files[i].set_modified(t);
    }

    pub fn with_max_retries(self, re: u32) -> (r: Self)
        ensures
            r.retries() == Some(re),
            r.files() == self.files(),
            r.interval() == self.interval(),
            r.decoder() == self.decoder(),
            r.runs_once() == self.runs_once(),
    {
        let mut s = self;
        s.max_retries = Some(re);
        s
    }
}

} // verus!
