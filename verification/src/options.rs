//! The knobs of the backend.

use vstd::prelude::*;

verus! {

/// The explicit knobs of the backend.
#[derive(Debug, Clone)]
#[non_exhaustive]
pub struct BackendOptions {
    /// The target that has to be taken, such as `sm_120`.
    pub target_arch: Option<String>,
    /// The architecture of the local GPU, taken where it has the detected
    /// features.
    pub device_arch_hint: Option<String>,
    /// Skip the `opt -O2` middle-end.
    pub no_opt: bool,
    /// Do not fuse a multiplication and an addition.
    pub no_fma: bool,
    /// Report progress and the selection of tools.
    pub verbose: bool,
    /// The path of the `llc` binary.
    pub llc_override: Option<String>,
    /// The path of the `opt` binary.
    pub opt_override: Option<String>,
}

/// The values of the environment variables that set the knobs, where they are
/// set and are Unicode.
#[derive(Debug)]
pub struct EnvironmentValues {
    /// `CUDA_OXIDE_TARGET`.
    pub target: Option<String>,
    /// `CUDA_OXIDE_DEVICE_ARCH`.
    pub device_arch: Option<String>,
    /// `CUDA_OXIDE_NO_OPT`.
    pub no_opt: Option<String>,
    /// `CUDA_OXIDE_NO_FMA`.
    pub no_fma: Option<String>,
    /// `CUDA_OXIDE_VERBOSE`.
    pub verbose: Option<String>,
    /// `CUDA_OXIDE_LLC`.
    pub llc: Option<String>,
    /// `CUDA_OXIDE_OPT`.
    pub opt: Option<String>,
}

impl Default for BackendOptions {
    /// Nothing is set.
    fn default() -> (options: BackendOptions)
        ensures
            options.target_arch is None,
            options.device_arch_hint is None,
            !options.no_opt,
            !options.no_fma,
            !options.verbose,
            options.llc_override is None,
            options.opt_override is None,
    {
        BackendOptions {
            target_arch: None,
            device_arch_hint: None,
            no_opt: false,
            no_fma: false,
            verbose: false,
            llc_override: None,
            opt_override: None,
        }
    }
}

impl BackendOptions {
    /// The knobs that the environment sets. Of a switch it counts that it is
    /// set, not to what.
    pub fn from_values(values: EnvironmentValues) -> (options: BackendOptions)
        ensures
            options.target_arch == values.target,
            options.device_arch_hint == values.device_arch,
            options.no_opt == (values.no_opt is Some),
            options.no_fma == (values.no_fma is Some),
            options.verbose == (values.verbose is Some),
            options.llc_override == values.llc,
            options.opt_override == values.opt,
    {
        BackendOptions {
            target_arch: values.target,
            device_arch_hint: values.device_arch,
            no_opt: values.no_opt.is_some(),
            no_fma: values.no_fma.is_some(),
            verbose: values.verbose.is_some(),
            llc_override: values.llc,
            opt_override: values.opt,
        }
    }
}

/// The root of the CUDA toolkit: the value of `CUDA_TOOLKIT_PATH`, word for
/// word, or `/usr/local/cuda` where it is not set or not Unicode.
pub fn cuda_toolkit_dir(value: Option<String>) -> (dir: String)
    ensures
        dir@ == match value {
            Some(path) => path@,
            None => "/usr/local/cuda"@,
        },
{
    match value {
        Some(path) => path,
        None => "/usr/local/cuda".to_owned(),
    }
}

/// Each knob goes by its own variable: where two environments agree on one, the
/// knob is the same, whatever the others are.
pub proof fn knobs_go_by_their_own_variables(
    a: EnvironmentValues,
    b: EnvironmentValues,
    of_a: BackendOptions,
    of_b: BackendOptions,
)
    requires
        call_ensures(BackendOptions::from_values, (a,), of_a),
        call_ensures(BackendOptions::from_values, (b,), of_b),
    ensures
        a.target == b.target <==> of_a.target_arch == of_b.target_arch,
        a.device_arch == b.device_arch <==> of_a.device_arch_hint == of_b.device_arch_hint,
        a.llc == b.llc <==> of_a.llc_override == of_b.llc_override,
        a.opt == b.opt <==> of_a.opt_override == of_b.opt_override,
        (a.no_opt is Some <==> b.no_opt is Some) <==> of_a.no_opt == of_b.no_opt,
        (a.no_fma is Some <==> b.no_fma is Some) <==> of_a.no_fma == of_b.no_fma,
        (a.verbose is Some <==> b.verbose is Some) <==> of_a.verbose == of_b.verbose,
{
}

/// An empty environment gives the default knobs, and setting a switch turns it
/// on, even to an empty text.
pub proof fn unset_variables_leave_the_defaults(
    values: EnvironmentValues,
    options: BackendOptions,
    defaults: BackendOptions,
)
    requires
        call_ensures(BackendOptions::from_values, (values,), options),
        call_ensures(BackendOptions::default, (), defaults),
    ensures
        values.target is None ==> options.target_arch == defaults.target_arch,
        values.device_arch is None ==> options.device_arch_hint == defaults.device_arch_hint,
        values.llc is None ==> options.llc_override == defaults.llc_override,
        values.opt is None ==> options.opt_override == defaults.opt_override,
        values.no_opt is None ==> options.no_opt == defaults.no_opt,
        values.no_fma is None ==> options.no_fma == defaults.no_fma,
        values.verbose is None ==> options.verbose == defaults.verbose,
        values.no_opt is Some ==> options.no_opt,
        values.no_fma is Some ==> options.no_fma,
        values.verbose is Some ==> options.verbose,
        values.target matches Some(target) ==> options.target_arch == Some(target),
        values.device_arch matches Some(arch) ==> options.device_arch_hint == Some(arch),
        values.llc matches Some(path) ==> options.llc_override == Some(path),
        values.opt matches Some(path) ==> options.opt_override == Some(path),
{
}

/// The toolkit is where the variable says, word for word, and at one fixed
/// absolute path where it says nothing.
pub proof fn toolkits_are_where_they_are_said_to_be(
    path: String,
    said: String,
    unsaid: String,
    again: String,
)
    requires
        call_ensures(cuda_toolkit_dir, (Some(path),), said),
        call_ensures(cuda_toolkit_dir, (None::<String>,), unsaid),
        call_ensures(cuda_toolkit_dir, (None::<String>,), again),
    ensures
        said@ == path@,
        unsaid@ == again@,
        unsaid@.len() == 15 && unsaid@[0] == '/',
        crate::text::finishes_with(unsaid@, "/cuda"@),
{
    reveal_strlit("/usr/local/cuda");
    reveal_strlit("/cuda");
    assert(unsaid@.subrange(10, 15) =~= "/cuda"@);
}

} // verus!
