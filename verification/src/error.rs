//! The error kinds a run can surface.  Each failure aborts the run; the
//! surrounding program prints the message and exits non-zero.

use vstd::prelude::*;
use vstd::string::StringExecFns;

verus! {

/// Everything that can go wrong while initializing a project.
#[derive(Debug, PartialEq, Eq)]
pub enum InitError {
    /// A configuration file could not be opened or read.
    ConfigRead,
    /// A configuration file is not valid structured configuration.
    ConfigParse,
    /// A module block lacks a plain string-literal `source` attribute;
    /// carries the module key (the block's first label, or the empty
    /// string where the block has no label at all).
    Schema { key: String },
    /// No candidate configuration files were found.
    NoInput,
    /// The home directory could not be determined.
    HomeDirMissing,
    /// The settings dotfile could not be read.
    SettingsUnreadable,
    /// The settings dotfile is not valid structured configuration.
    SettingsUnparseable,
    /// The settings dotfile has no `plugin_cache_dir` attribute.
    CacheAttrMissing,
    /// The `plugin_cache_dir` attribute is not a plain string literal.
    CacheAttrNotString,
    /// The output directory already exists and clean mode is off.
    Precondition,
    /// The manifest file or the cache link could not be created.
    OutputWrite,
}

/// Mathematical model of an error.
pub enum InitErrorV {
    ConfigRead,
    ConfigParse,
    Schema { key: Seq<char> },
    NoInput,
    HomeDirMissing,
    SettingsUnreadable,
    SettingsUnparseable,
    CacheAttrMissing,
    CacheAttrNotString,
    Precondition,
    OutputWrite,
}

impl View for InitError {
    type V = InitErrorV;

    open spec fn view(&self) -> InitErrorV {
        match self {
            InitError::ConfigRead => InitErrorV::ConfigRead,
            InitError::ConfigParse => InitErrorV::ConfigParse,
            InitError::Schema { key } => InitErrorV::Schema { key: key@ },
            InitError::NoInput => InitErrorV::NoInput,
            InitError::HomeDirMissing => InitErrorV::HomeDirMissing,
            InitError::SettingsUnreadable => InitErrorV::SettingsUnreadable,
            InitError::SettingsUnparseable => InitErrorV::SettingsUnparseable,
            InitError::CacheAttrMissing => InitErrorV::CacheAttrMissing,
            InitError::CacheAttrNotString => InitErrorV::CacheAttrNotString,
            InitError::Precondition => InitErrorV::Precondition,
            InitError::OutputWrite => InitErrorV::OutputWrite,
        }
    }
}

impl DeepView for InitError {
    type V = InitErrorV;

    open spec fn deep_view(&self) -> InitErrorV {
        self.view()
    }
}

/// The human-readable message for an error.
pub open spec fn message_of(e: InitErrorV) -> Seq<char> {
    match e {
        InitErrorV::ConfigRead => "terraform files must be readable"@,
        InitErrorV::ConfigParse => "terraform files must be parseable"@,
        InitErrorV::Schema { key } => "module \""@ + key
            + "\" must have a plain string source attribute"@,
        InitErrorV::NoInput => "no terraform files in directory"@,
        InitErrorV::HomeDirMissing => "failed getting home directory"@,
        InitErrorV::SettingsUnreadable => "unable to read ~/.terraformrc"@,
        InitErrorV::SettingsUnparseable => "unable to parse ~/.terraformrc"@,
        InitErrorV::CacheAttrMissing => "no \"plugin_cache_dir\" attribute in ~/.terraformrc"@,
        InitErrorV::CacheAttrNotString => "plugin_cache_dir setting cant be used because it is not a string literal"@,
        InitErrorV::Precondition => ".terraform already exists"@,
        InitErrorV::OutputWrite => "can not create the .terraform output files"@,
    }
}

impl InitError {
    /// The human-readable message for this error.
    pub fn message(&self) -> (r: String)
        ensures
            r@ == message_of(self@),
    {
        match self {
            InitError::ConfigRead => String::from_str("terraform files must be readable"),
            InitError::ConfigParse => String::from_str("terraform files must be parseable"),
            InitError::Schema { key } => {
                let mut m = String::from_str("module \"");
                m.append(key.as_str());
                m.append("\" must have a plain string source attribute");
                m
            },
            InitError::NoInput => String::from_str("no terraform files in directory"),
            InitError::HomeDirMissing => String::from_str("failed getting home directory"),
            InitError::SettingsUnreadable => String::from_str("unable to read ~/.terraformrc"),
            InitError::SettingsUnparseable => String::from_str("unable to parse ~/.terraformrc"),
            InitError::CacheAttrMissing => String::from_str(
                "no \"plugin_cache_dir\" attribute in ~/.terraformrc",
            ),
            InitError::CacheAttrNotString => String::from_str(
                "plugin_cache_dir setting cant be used because it is not a string literal",
            ),
            InitError::Precondition => String::from_str(".terraform already exists"),
            InitError::OutputWrite => String::from_str(
                "can not create the .terraform output files",
            ),
        }
    }
}

} // verus!
