//! The discovery error type.

use vstd::prelude::*;

use crate::app_type::{joined_variant_names, variant_name_of, WolframAppType};
use crate::platform::{os_name, OperatingSystem};

verus! {

/// Wolfram app discovery error.
#[derive(Debug, Clone, PartialEq, Eq)]
pub struct Error {
    pub kind: ErrorKind,
}

/// What went wrong, with the context of each kind of failure.
#[derive(Debug, Clone, PartialEq, Eq)]
pub enum ErrorKind {
    /// A resource could not be located.
    Undiscoverable {
        /// The thing that could not be located.
        resource: String,
        /// Environment variable that could be set to make it discoverable.
        environment_variable: Option<&'static str>,
    },
    /// A file or directory of an application is not at its expected place.
    UnexpectedAppLayout {
        resource_name: &'static str,
        app_installation_dir: String,
        /// Path within `app_installation_dir` that was expected to exist.
        path: String,
    },
    /// A file or directory of a component is not at its expected place.
    UnexpectedLayout { resource_name: &'static str, dir: String, path: String },
    /// The directory named by a configuration environment variable does not
    /// hold a file at the expected place.
    UnexpectedEnvironmentValueLayout {
        resource_name: &'static str,
        env_var: &'static str,
        env_value: String,
        /// Path within `env_value` that was expected to exist.
        derived_path: String,
    },
    /// The application named by an environment variable does not match the
    /// filter it is expected to satisfy.
    SpecifiedAppDoesNotMatchFilter { environment_variable: &'static str, filter_err: FilterError },
    /// The operation has no implementation for this platform.
    UnsupportedPlatform { operation: String, target_os: OperatingSystem },
    /// An I/O failure, as text.
    IO(String),
    /// Any other failure, as text.
    Other(String),
}

/// Why an application did not pass a filter.
#[derive(Debug, Clone, PartialEq, Eq)]
pub enum FilterError {
    /// The application's product type is not among the allowed ones.
    FilterDoesNotMatchAppType { app_type: WolframAppType, allowed: Vec<WolframAppType> },
}

impl Error {
    /// What went wrong.
    pub fn kind(&self) -> (r: &ErrorKind)
        ensures
            *r == self.kind,
    {
        &self.kind
    }

    pub fn other(message: String) -> (r: Error)
        ensures
            r.kind == ErrorKind::Other(message),
    {
        Error { kind: ErrorKind::Other(message) }
    }

    pub fn io(message: String) -> (r: Error)
        ensures
            r.kind == ErrorKind::IO(message),
    {
        Error { kind: ErrorKind::IO(message) }
    }

    pub fn undiscoverable(resource: String, environment_variable: Option<&'static str>) -> (r: Error)
        ensures
            r.kind == (ErrorKind::Undiscoverable { resource, environment_variable }),
    {
        Error { kind: ErrorKind::Undiscoverable { resource, environment_variable } }
    }

    pub fn unexpected_app_layout(
        resource_name: &'static str,
        app_installation_dir: String,
        path: String,
    ) -> (r: Error)
        ensures
            r.kind == (ErrorKind::UnexpectedAppLayout { resource_name, app_installation_dir, path }),
    {
        Error { kind: ErrorKind::UnexpectedAppLayout { resource_name, app_installation_dir, path } }
    }

    pub fn unexpected_layout(resource_name: &'static str, dir: String, path: String) -> (r: Error)
        ensures
            r.kind == (ErrorKind::UnexpectedLayout { resource_name, dir, path }),
    {
        Error { kind: ErrorKind::UnexpectedLayout { resource_name, dir, path } }
    }

    pub fn unexpected_env_layout(
        resource_name: &'static str,
        env_var: &'static str,
        env_value: String,
        derived_path: String,
    ) -> (r: Error)
        ensures
            r.kind == (ErrorKind::UnexpectedEnvironmentValueLayout {
                resource_name,
                env_var,
                env_value,
                derived_path,
            }),
    {
        Error {
            kind: ErrorKind::UnexpectedEnvironmentValueLayout {
                resource_name,
                env_var,
                env_value,
                derived_path,
            },
        }
    }

    pub fn platform_unsupported(operation: &str, target_os: OperatingSystem) -> (r: Error)
        ensures
            r.kind is UnsupportedPlatform,
            r.kind->UnsupportedPlatform_operation@ == operation@,
            r.kind->UnsupportedPlatform_target_os == target_os,
    {
        Error {
            kind: ErrorKind::UnsupportedPlatform { operation: String::from_str(operation), target_os },
        }
    }

    pub fn app_does_not_match_filter(
        environment_variable: &'static str,
        filter_err: FilterError,
    ) -> (r: Error)
        ensures
            r.kind == (ErrorKind::SpecifiedAppDoesNotMatchFilter {
                environment_variable,
                filter_err,
            }),
    {
        Error { kind: ErrorKind::SpecifiedAppDoesNotMatchFilter { environment_variable, filter_err } }
    }

    /// A human-readable description of the error: a fixed prefix, then one
    /// sentence per kind of failure with its context.
    pub fn message(&self) -> (r: String)
        ensures
            self.kind is Other ==> r@ == "Wolfram app error: "@ + self.kind->Other_0@,
            self.kind is IO ==> r@ == "Wolfram app error: "@ + "IO error during discovery: "@
                + self.kind->IO_0@,
            self.kind is Undiscoverable && self.kind->Undiscoverable_environment_variable is None ==> r@
                == "Wolfram app error: "@ + "unable to locate "@ + self.kind->Undiscoverable_resource@,
            self.kind is Undiscoverable && self.kind->Undiscoverable_environment_variable is Some ==> r@
                == "Wolfram app error: "@ + "unable to locate "@ + self.kind->Undiscoverable_resource@
                + ". Hint: try setting "@ + self.kind->Undiscoverable_environment_variable->Some_0@,
            self.kind is UnexpectedAppLayout ==> r@ == "Wolfram app error: "@ + "in app at '"@
                + self.kind->UnexpectedAppLayout_app_installation_dir@ + "', "@
                + self.kind->UnexpectedAppLayout_resource_name@ + " does not exist at the expected location: "@
                + self.kind->UnexpectedAppLayout_path@,
            self.kind is UnexpectedEnvironmentValueLayout ==> r@ == "Wolfram app error: "@
                + self.kind->UnexpectedEnvironmentValueLayout_resource_name@
                + " does not exist at expected location (derived from env config: "@
                + self.kind->UnexpectedEnvironmentValueLayout_env_var@ + "="@
                + self.kind->UnexpectedEnvironmentValueLayout_env_value@ + "): "@
                + self.kind->UnexpectedEnvironmentValueLayout_derived_path@,
            self.kind is SpecifiedAppDoesNotMatchFilter ==> r@ == "Wolfram app error: "@
                + "app specified by environment variable '"@
                + self.kind->SpecifiedAppDoesNotMatchFilter_environment_variable@
                + "' does not match filter: "@ + filter_message(
                self.kind->SpecifiedAppDoesNotMatchFilter_filter_err,
            ),
            self.kind is UnsupportedPlatform ==> r@ == "Wolfram app error: "@ + "operation '"@
                + self.kind->UnsupportedPlatform_operation@ + "' is not yet implemented for this platform: "@
                + os_name(self.kind->UnsupportedPlatform_target_os),
            self.kind is UnexpectedLayout ==> r@ == "Wolfram app error: "@ + "in component at '"@
                + self.kind->UnexpectedLayout_dir@ + "', "@ + self.kind->UnexpectedLayout_resource_name@
                + " does not exist at the expected location: "@ + self.kind->UnexpectedLayout_path@,
    {
        let mut s = String::from_str("Wolfram app error: ");
        match &self.kind {
            ErrorKind::Undiscoverable { resource, environment_variable } => {
                s.append("unable to locate ");
                s.append(resource.as_str());
                match environment_variable {
                    Some(var) => {
                        s.append(". Hint: try setting ");
                        s.append(var);
                    },
                    None => {},
                }
            },
            ErrorKind::UnexpectedAppLayout { resource_name, app_installation_dir, path } => {
                s.append("in app at '");
                s.append(app_installation_dir.as_str());
                s.append("', ");
                s.append(resource_name);
                s.append(" does not exist at the expected location: ");
                s.append(path.as_str());
            },
            ErrorKind::UnexpectedLayout { resource_name, dir, path } => {
                s.append("in component at '");
                s.append(dir.as_str());
                s.append("', ");
                s.append(resource_name);
                s.append(" does not exist at the expected location: ");
                s.append(path.as_str());
            },
            ErrorKind::UnexpectedEnvironmentValueLayout {
                resource_name,
                env_var,
                env_value,
                derived_path,
            } => {
                s.append(resource_name);
                s.append(" does not exist at expected location (derived from env config: ");
                s.append(env_var);
                s.append("=");
                s.append(env_value.as_str());
                s.append("): ");
                s.append(derived_path.as_str());
            },
            ErrorKind::SpecifiedAppDoesNotMatchFilter { environment_variable, filter_err } => {
                s.append("app specified by environment variable '");
                s.append(environment_variable);
                s.append("' does not match filter: ");
                let detail = filter_err.message();
                s.append(detail.as_str());
            },
            ErrorKind::UnsupportedPlatform { operation, target_os } => {
                s.append("operation '");
                s.append(operation.as_str());
                s.append("' is not yet implemented for this platform: ");
                s.append(target_os.name());
            },
            ErrorKind::IO(message) => {
                s.append("IO error during discovery: ");
                s.append(message.as_str());
            },
            ErrorKind::Other(message) => {
                s.append(message.as_str());
            },
        }
        s
    }
}

/// The description of a filter mismatch.
pub open spec fn filter_message(e: FilterError) -> Seq<char> {
    match e {
        FilterError::FilterDoesNotMatchAppType { app_type, allowed } => "application type '"@
            + variant_name_of(app_type) + "' is not present in list of filtered app types: ["@
            + joined_variant_names(allowed@) + "]"@,
    }
}

impl FilterError {
    /// A human-readable description of the mismatch.
    pub fn message(&self) -> (r: String)
        ensures
            r@ == filter_message(*self),
    {
        match self {
            FilterError::FilterDoesNotMatchAppType { app_type, allowed } => {
                let mut s = String::from_str("application type '");
                s.append(app_type.variant_name());
                s.append("' is not present in list of filtered app types: [");
                let ghost head = s@;
                let mut i: usize = 0;
                proof {
                    reveal_strlit(", ");
                    assert(allowed@.take(0) =~= Seq::<WolframAppType>::empty());
                    assert(head =~= head + joined_variant_names(allowed@.take(0)));
                }
                while i < allowed.len()
                    invariant
                        i <= allowed@.len(),
                        s@ == head + joined_variant_names(allowed@.take(i as int)),
                    decreases allowed@.len() - i,
                {
                    let ghost prefix = allowed@.take(i as int);
                    let ghost next = allowed@.take(i + 1);
                    assert(next.drop_last() =~= prefix);
                    assert(next.last() == allowed@[i as int]);
                    if i > 0 {
                        s.append(", ");
                    }
                    s.append(allowed[i].variant_name());
                    proof {
                        if i == 0 {
                            assert(s@ =~= head + joined_variant_names(next));
                        } else {
                            assert(s@ =~= head + joined_variant_names(next));
                        }
                    }
                    i = i + 1;
                }
                assert(allowed@.take(i as int) =~= allowed@);
                s.append("]");
                s
            },
        }
    }
}

} // verus!
