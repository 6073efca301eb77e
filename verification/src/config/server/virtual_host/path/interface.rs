//! Configuration of a path served by an application interface (PHP, ASGI, WSGI, RSGI or
//! Ruby): the URI, the application's directory, its entry point and its parameters.
use vstd::prelude::*;

use std::collections::HashMap;
use std::path::PathBuf;

use crate::errors::{ConfigError, VetisError};
use crate::std_types::{exists_answer, exists_on_disk, joined_path, path_from, path_join, path_of};
use crate::text::{split_once, split_once_spec};

verus! {

broadcast use vstd::string::group_string_axioms;

/// The interface through which the application is run.
#[derive(Clone, Copy, Debug, PartialEq, Eq, Structural)]
#[non_exhaustive]
pub enum InterfaceType {
    Php,
    Asgi,
    Wsgi,
    Rsgi,
    Ruby,
}

/// Abstract content of an interface path configuration.
pub struct InterfacePathView {
    pub uri: Seq<char>,
    pub directory: Seq<char>,
    pub target: Seq<char>,
    pub params: Option<HashMap<String, String>>,
    pub interface_type: InterfaceType,
}

/// Python interfaces name their entry point as `module:application`.
pub open spec fn is_python(t: InterfaceType) -> bool {
    t == InterfaceType::Asgi || t == InterfaceType::Wsgi || t == InterfaceType::Rsgi
}

/// The Python module file a `module:application` target names, inside `directory`.
pub open spec fn module_file_spec(directory: Seq<char>, target: Seq<char>) -> Option<PathBuf> {
    match split_once_spec(target, ':') {
        Some((module, _)) => Some(joined_path(directory, module + ".py"@)),
        None => None,
    }
}

/// The message a configuration is refused with, given whether its directory and (for a
/// Python interface) its module file exist; `None` when it is accepted.
pub open spec fn interface_refusal(v: InterfacePathView, directory_exists: bool, module_exists: bool) -> Option<
    Seq<char>,
> {
    if v.uri.len() == 0 {
        Some("URI cannot be empty"@)
    } else if v.directory.len() == 0 {
        Some("Missing directory"@)
    } else if !directory_exists {
        Some("Directory does not exist"@)
    } else if v.target.len() == 0 {
        Some("Missing target"@)
    } else if is_python(v.interface_type) {
        match split_once_spec(v.target, ':') {
            None => Some("Target must be in format 'module:application' for API interface type"@),
            Some(_) => if !module_exists {
                Some("Module file does not exist"@)
            } else {
                None
            },
        }
    } else {
        None
    }
}

/// The outcome of building, with a refusal carrying its `ConfigError::Path` message.
pub open spec fn interface_build_matches(
    r: Result<InterfacePathConfig, VetisError>,
    v: InterfacePathView,
    directory_exists: bool,
    module_exists: bool,
) -> bool {
    match interface_refusal(v, directory_exists, module_exists) {
        Some(msg) => r matches Err(VetisError::Config(ConfigError::Path(m))) && m@ == msg,
        None => r matches Ok(c) && c@ == v,
    }
}

/// The disk answers a build decides from: whether the directory exists (asked once a URI
/// and a directory are given), and whether the module file `module.py` that a
/// `module:application` target names exists in the directory.
pub open spec fn interface_disk_answers(v: InterfacePathView, directory_exists: bool, module_exists: bool) -> bool {
    &&& (v.uri.len() > 0 && v.directory.len() > 0 ==> exists_answer(path_of(v.directory), directory_exists))
    &&& match module_file_spec(v.directory, v.target) {
        Some(f) => exists_answer(f, module_exists),
        None => !module_exists,
    }
}

/// Collects the settings of an interface path.
pub struct InterfacePathConfigBuilder {
    uri: String,
    directory: String,
    target: String,
    params: Option<HashMap<String, String>>,
    interface_type: InterfaceType,
}

impl View for InterfacePathConfigBuilder {
    type V = InterfacePathView;

    closed spec fn view(&self) -> InterfacePathView {
        InterfacePathView {
            uri: self.uri@,
            directory: self.directory@,
            target: self.target@,
            params: self.params,
            interface_type: self.interface_type,
        }
    }
}

fn path_error(msg: &str) -> (e: VetisError)
    ensures
        e matches VetisError::Config(ConfigError::Path(m)) && m@ == msg@,
{
    VetisError::Config(ConfigError::Path(msg.to_string()))
}

impl InterfacePathConfigBuilder {
    pub fn uri(self, uri: &str) -> (r: Self)
        ensures
            r@ == (InterfacePathView { uri: uri@, ..self@ }),
    {
        InterfacePathConfigBuilder { uri: uri.to_string(), ..self }
    }

    pub fn directory(self, directory: &str) -> (r: Self)
        ensures
            r@ == (InterfacePathView { directory: directory@, ..self@ }),
    {
        InterfacePathConfigBuilder { directory: directory.to_string(), ..self }
    }

    pub fn target(self, target: &str) -> (r: Self)
        ensures
            r@ == (InterfacePathView { target: target@, ..self@ }),
    {
        InterfacePathConfigBuilder { target: target.to_string(), ..self }
    }

    pub fn params(self, params: HashMap<String, String>) -> (r: Self)
        ensures
            r@ == (InterfacePathView { params: Some(params), ..self@ }),
    {
        InterfacePathConfigBuilder { params: Some(params), ..self }
    }

    pub fn interface_type(self, interface_type: InterfaceType) -> (r: Self)
        ensures
            r@ == (InterfacePathView { interface_type, ..self@ }),
    {
        InterfacePathConfigBuilder { interface_type, ..self }
    }

    /// The Python module file named by the target, inside the directory.
    pub fn module_file(&self) -> (r: Option<PathBuf>)
        ensures
            r == module_file_spec(self@.directory, self@.target),
    {
        proof {
            reveal_strlit(".py");
        }
        match split_once(self.target.as_str(), ':') {
            Some((module, _)) => {
                let mut name = module.to_string();
                name.append(".py");
                Some(path_join(self.directory.as_str(), name.as_str()))
            },
            None => None,
        }
    }

    /// Builds the configuration once it is known whether the directory and the module
    /// file exist.
    pub fn build_checked(self, directory_exists: bool, module_exists: bool) -> (r: Result<
        InterfacePathConfig,
        VetisError,
    >)
        ensures
            interface_build_matches(r, self@, directory_exists, module_exists),
    {
        proof {
            reveal_strlit("URI cannot be empty");
            reveal_strlit("Missing directory");
            reveal_strlit("Directory does not exist");
            reveal_strlit("Missing target");
        }
        if self.uri.as_str().is_empty() {
            return Err(path_error("URI cannot be empty"));
        }
        if self.directory.as_str().is_empty() {
            return Err(path_error("Missing directory"));
        }
        if !directory_exists {
            return Err(path_error("Directory does not exist"));
        }
        if self.target.as_str().is_empty() {
            return Err(path_error("Missing target"));
        }
        match self.interface_type {
            InterfaceType::Asgi | InterfaceType::Wsgi | InterfaceType::Rsgi => {
                match split_once(self.target.as_str(), ':') {
                    Some(_) => {
                        if !module_exists {
                            return Err(path_error("Module file does not exist"));
                        }
                    },
                    None => {
                        return Err(
                            path_error(
                                "Target must be in format 'module:application' for API interface type",
                            ),
                        );
                    },
                }
            },
            InterfaceType::Php | InterfaceType::Ruby => {},
        }
        Ok(
            InterfacePathConfig {
                uri: self.uri,
                directory: self.directory,
                target: self.target,
                params: self.params,
                interface_type: self.interface_type,
            },
        )
    }

    /// Checks the settings: the URI, directory and target must be given, the directory
    /// must exist, and a Python target must be `module:application` with an existing
    /// `module.py` in the directory.
    pub fn build(self) -> (r: Result<InterfacePathConfig, VetisError>)
        ensures
            exists|directory_exists: bool, module_exists: bool|
                #[trigger] interface_build_matches(r, self@, directory_exists, module_exists)
                    && interface_disk_answers(self@, directory_exists, module_exists),
    {
        let directory_exists = if self.uri.as_str().is_empty() || self.directory.as_str().is_empty() {
            false
        } else {
            exists_on_disk(&path_from(self.directory.as_str()))
        };
        let module_exists = match self.module_file() {
            Some(f) => exists_on_disk(&f),
            None => false,
        };
        let ghost v = self@;
        let r = self.build_checked(directory_exists, module_exists);
        assert(interface_build_matches(r, v, directory_exists, module_exists));
        r
    }
}

/// Settings of an interface path.
pub struct InterfacePathConfig {
    uri: String,
    directory: String,
    target: String,
    params: Option<HashMap<String, String>>,
    interface_type: InterfaceType,
}

impl View for InterfacePathConfig {
    type V = InterfacePathView;

    closed spec fn view(&self) -> InterfacePathView {
        InterfacePathView {
            uri: self.uri@,
            directory: self.directory@,
            target: self.target@,
            params: self.params,
            interface_type: self.interface_type,
        }
    }
}

impl Clone for InterfacePathConfig {
    /// A copy with the same URI, directory, target and interface, and parameters with the
    /// same contents when the copied configuration has some.
    fn clone(&self) -> (r: Self)
        ensures
            r@.uri == self@.uri,
            r@.directory == self@.directory,
            r@.target == self@.target,
            r@.interface_type == self@.interface_type,
            match (r@.params, self@.params) {
                (Some(a), Some(b)) => a@ == b@,
                (None, None) => true,
                _ => false,
            },
    {
        proof {
            use_type_invariant(self);
        }
        let params = match &self.params {
            Some(p) => Some(p.clone()),
            None => None,
        };
        InterfacePathConfig {
            uri: self.uri.clone(),
            directory: self.directory.clone(),
            target: self.target.clone(),
            params,
            interface_type: self.interface_type,
        }
    }
}

impl InterfacePathConfig {
    /// A built interface path has a URI, a directory and a target, and a Python target names its module and application.
    #[verifier::type_invariant]
    spec fn well_formed(&self) -> bool {
        self.uri@.len() > 0 && self.directory@.len() > 0 && self.target@.len() > 0 && (is_python(self.interface_type) ==> split_once_spec(self.target@, ':') is Some)
    }

    /// A builder for a WSGI application `main` in `.` served under `/`.
    pub fn builder() -> (r: InterfacePathConfigBuilder)
        ensures
            r@ == (InterfacePathView {
                uri: "/"@,
                directory: "."@,
                target: "main"@,
                params: None,
                interface_type: InterfaceType::Wsgi,
            }),
    {
        InterfacePathConfigBuilder {
            uri: "/".to_string(),
            directory: ".".to_string(),
            target: "main".to_string(),
            params: None,
            interface_type: InterfaceType::Wsgi,
        }
    }

    pub fn uri(&self) -> (r: &str)
        ensures
            r@ == self@.uri,
            r@.len() > 0,
    {
        proof {
            use_type_invariant(self);
        }
        self.uri.as_str()
    }

    pub fn directory(&self) -> (r: &str)
        ensures
            r@ == self@.directory,
            r@.len() > 0,
    {
        proof {
            use_type_invariant(self);
        }
        self.directory.as_str()
    }

    pub fn target(&self) -> (r: &str)
        ensures
            r@ == self@.target,
            r@.len() > 0,
    {
        proof {
            use_type_invariant(self);
        }
        self.target.as_str()
    }

    pub fn params(&self) -> (r: &Option<HashMap<String, String>>)
        ensures
            *r == self@.params,
    {
        &self.params
    }

    pub fn interface_type(&self) -> (r: &InterfaceType)
        ensures
            *r == self@.interface_type,
    {
        &self.interface_type
    }
}

} // verus!
