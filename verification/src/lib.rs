//! Discovery of Python interpreters reachable through the process search
//! path.
//!
//! The locator reads the search-path variable through an injected
//! [`known::Environment`] capability, enumerates candidate executables named
//! after the platform's bare interpreter (`python.exe` on the Windows family,
//! `python` otherwise), filters out the Windows app-execution-alias folder,
//! and normalizes every existing candidate into a structured descriptor.

pub mod common_python;
pub mod known;
pub mod locator;
pub mod messaging;
pub mod paths;
pub mod utils;

pub use common_python::PythonOnPath;
pub use common_python::bin_name;
pub use common_python::get_env_path;
pub use common_python::windows_apps_dir;
pub use known::Environment;
pub use known::StaticEnvironment;
pub use locator::EnvManager;
pub use locator::LocatorResult;
pub use messaging::PythonEnvironment;
pub use messaging::PythonEnvironmentCategory;
pub use paths::split_paths;
pub use utils::PythonEnv;

