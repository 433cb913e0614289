//! Execution-environment data shapes: the running shell, its features and proxy settings.

use vstd::prelude::*;

verus! {

#[derive(Debug, Clone, PartialEq)]
pub struct ShellInfo {
    pub name: String,
    pub version: String,
    pub path: String,
    pub pid: Option<u32>,
    pub parent_pid: Option<u32>,
    pub config_files: Vec<String>,
    pub features: ShellFeatures,
}

#[derive(Debug, Clone, PartialEq)]
pub struct ShellFeatures {
    pub completion: bool,
    pub history: bool,
    pub job_control: bool,
    pub aliases: bool,
    pub functions: bool,
    pub variables: bool,
    pub scripting: bool,
}

#[derive(Debug, Clone, PartialEq)]
pub struct ColorSupport {
    pub colors_16: bool,
    pub colors_256: bool,
    pub truecolor: bool,
    pub color_scheme: String,
}

#[derive(Debug, Clone, PartialEq)]
pub struct ProxySettings {
    pub http_proxy: Option<String>,
    pub https_proxy: Option<String>,
    pub ftp_proxy: Option<String>,
    pub no_proxy: Option<String>,
}

} // verus!
