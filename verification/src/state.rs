use vstd::prelude::*;

verus! {

/// Status of the build process.
#[derive(Debug, Clone, Copy, PartialEq, Eq, Structural)]
pub enum BuildStatus {
    NotStarted,
    Extracting,
    Building,
    Completed,
    Failed,
}

/// Abstract value of a [`BuildOutput`].
pub struct BuildOutputView {
    pub success: bool,
    pub stdout: Seq<char>,
    pub stderr: Seq<char>,
    pub wasm_path: Option<Seq<char>>,
    pub wasm_hash: Option<Seq<char>>,
    pub build_logs: Seq<Seq<char>>,
    pub error: Option<Seq<char>>,
}

/// Result information of one build.
#[derive(Debug)]
pub struct BuildOutput {
    pub success: bool,
    pub stdout: String,
    pub stderr: String,
    pub wasm_path: Option<String>,
    pub wasm_hash: Option<String>,
    pub build_logs: Vec<String>,
    pub error: Option<String>,
}

/// The view of an optional string.
pub open spec fn opt_view(o: Option<String>) -> Option<Seq<char>> {
    match o {
        Some(s) => Some(s@),
        None => None,
    }
}

/// The view of a vector of strings.
pub open spec fn strings_view(v: Vec<String>) -> Seq<Seq<char>> {
    v@.map_values(|s: String| s@)
}

impl View for BuildOutput {
    type V = BuildOutputView;

    open spec fn view(&self) -> BuildOutputView {
        BuildOutputView {
            success: self.success,
            stdout: self.stdout@,
            stderr: self.stderr@,
            wasm_path: opt_view(self.wasm_path),
            wasm_hash: opt_view(self.wasm_hash),
            build_logs: strings_view(self.build_logs),
            error: opt_view(self.error),
        }
    }
}

/// Copies an optional string.
pub fn clone_opt_string(o: &Option<String>) -> (r: Option<String>)
    ensures
        opt_view(r) == opt_view(*o),
{
    match o {
        Some(s) => Some(s.clone()),
        None => None,
    }
}

/// Copies a vector of strings.
pub fn clone_strings(v: &Vec<String>) -> (r: Vec<String>)
    ensures
        strings_view(r) == strings_view(*v),
{
    let mut r: Vec<String> = Vec::new();
    let mut i: usize = 0;
    while i < v.len()
        invariant
            i <= v.len(),
            r@.len() == i,
            forall|j: int| 0 <= j < i ==> r@[j]@ == v@[j]@,
        decreases v.len() - i,
    {
        r.push(v[i].clone());
        i = i + 1;
    }
    assert(strings_view(r) =~= strings_view(*v));
    r
}

impl Clone for BuildOutput {
    fn clone(&self) -> (r: Self)
        ensures
            r@ == self@,
    {
        BuildOutput {
            success: self.success,
            stdout: self.stdout.clone(),
            stderr: self.stderr.clone(),
            wasm_path: clone_opt_string(&self.wasm_path),
            wasm_hash: clone_opt_string(&self.wasm_hash),
            build_logs: clone_strings(&self.build_logs),
            error: clone_opt_string(&self.error),
        }
    }
}

/// State of one build, as tracked by the build process.
#[derive(Debug)]
pub struct BuildState {
    pub store_id: String,
    /// Content reference to the filesystem root in the content store.
    pub fs_hash: String,
    pub status: BuildStatus,
    pub build_output: Option<BuildOutput>,
    /// Channel on which progress is reported, if any.
    pub channel_id: Option<String>,
    /// Store that receives the build output.
    pub build_store_id: String,
}

/// The failed output that carries only an error message.
pub open spec fn failed_output_view(error: Seq<char>) -> BuildOutputView {
    BuildOutputView {
        success: false,
        stdout: Seq::empty(),
        stderr: Seq::empty(),
        wasm_path: None,
        wasm_hash: None,
        build_logs: Seq::empty(),
        error: Some(error),
    }
}

/// The status that a build output settles the build in.
pub open spec fn status_after(success: bool) -> BuildStatus {
    if success {
        BuildStatus::Completed
    } else {
        BuildStatus::Failed
    }
}

impl BuildState {
    /// A fresh state for a build of `fs_hash` from `store_id`: not started,
    /// without output, channel or build store.
    pub fn new(store_id: String, fs_hash: String) -> (s: Self)
        ensures
            s.store_id@ == store_id@,
            s.fs_hash@ == fs_hash@,
            s.status == BuildStatus::NotStarted,
            s.build_output.is_none(),
            s.channel_id.is_none(),
            s.build_store_id@ == Seq::<char>::empty(),
    {
        BuildState {
            store_id,
            fs_hash,
            status: BuildStatus::NotStarted,
            build_output: None,
            channel_id: None,
            build_store_id: String::new(),
        }
    }

    /// Sets the status and leaves everything else as it was.
    pub fn set_status(&mut self, status: BuildStatus) -> (r: &mut Self)
        ensures
            r.status == status,
            r.store_id == old(self).store_id,
            r.fs_hash == old(self).fs_hash,
            r.build_output == old(self).build_output,
            r.channel_id == old(self).channel_id,
            r.build_store_id == old(self).build_store_id,
            *final(self) == *final(r),
    {
        self.status = status;
        self
    }

    /// Records a build output; the status becomes `Completed` when the output
    /// reports success and `Failed` otherwise.
    pub fn set_build_output(&mut self, output: BuildOutput) -> (r: &mut Self)
        ensures
            r.build_output.is_some(),
            r.build_output.unwrap()@ == output@,
            r.status == status_after(output.success),
            r.store_id == old(self).store_id,
            r.fs_hash == old(self).fs_hash,
            r.channel_id == old(self).channel_id,
            r.build_store_id == old(self).build_store_id,
            *final(self) == *final(r),
    {
        let success = output.success;
        self.build_output = Some(output);
        if success {
            self.status = BuildStatus::Completed;
        } else {
            self.status = BuildStatus::Failed;
        }
        self
    }

    /// The output of a build that failed with `error` before producing anything.
    pub fn failed_output(error: String) -> (o: BuildOutput)
        ensures
            o@ == failed_output_view(error@),
    {
        let o = BuildOutput {
            success: false,
            stdout: String::new(),
            stderr: String::new(),
            wasm_path: None,
            wasm_hash: None,
            build_logs: Vec::new(),
            error: Some(error),
        };
        assert(strings_view(o.build_logs) =~= Seq::<Seq<char>>::empty());
        o
    }
}

} // verus!
