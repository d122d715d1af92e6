//! Describing installable applications: their licenses, where they live,
//! and what is known about them.

use vstd::prelude::*;
use crate::text::{debug_path, quoted_path};

verus! {

/// An application's license.
#[derive(Debug, PartialEq, Eq)]
pub enum AppLicense {
    Unknown,
    /// e.g. GPL-3.0-only
    Text(String),
    /// A license file.
    File(String),
    /// Either of two licenses.
    Or(Box<AppLicense>, Box<AppLicense>),
}

impl Clone for AppLicense {
    fn clone(&self) -> (r: AppLicense)
        ensures
            r == *self,
        decreases self,
    {
        match self {
            AppLicense::Unknown => AppLicense::Unknown,
            AppLicense::Text(s) => AppLicense::Text(s.clone()),
            AppLicense::File(p) => AppLicense::File(p.clone()),
            AppLicense::Or(a, b) => {
                let a1: AppLicense = (**a).clone();
                let b1: AppLicense = (**b).clone();
                AppLicense::Or(Box::new(a1), Box::new(b1))
            },
        }
    }
}

impl Default for AppLicense {
    fn default() -> (r: AppLicense)
        ensures
            r == AppLicense::Unknown,
    {
        AppLicense::Unknown
    }
}

/// How a license reads: a file's path is quoted.
pub open spec fn license_text(l: AppLicense) -> Seq<char>
    decreases l,
{
    match l {
        AppLicense::Unknown => "Unknown"@,
        AppLicense::Text(s) => s@,
        AppLicense::File(p) => quoted_path(p@),
        AppLicense::Or(a, b) => license_text(*a) + " or "@ + license_text(*b),
    }
}

impl AppLicense {
    pub fn to_text(&self) -> (r: String)
        ensures
            r@ == license_text(*self),
        decreases self,
    {
        match self {
            AppLicense::Unknown => String::from_str("Unknown"),
            AppLicense::Text(s) => s.clone(),
            AppLicense::File(p) => debug_path(p.as_str()),
            AppLicense::Or(a, b) => {
                let left = a.to_text();
                let right = b.to_text();
                left.concat(" or ").concat(right.as_str())
            },
        }
    }
}

/// What is known about an application.
pub trait AppInfo {
    type Error;

    fn name(&self) -> String;

    fn license(&self) -> Result<AppLicense, Self::Error>;

    fn description(&self) -> Result<String, Self::Error>;

    fn documentation(&self) -> Result<String, Self::Error>;

    fn homepage(&self) -> Result<String, Self::Error>;

    fn repository(&self) -> Result<String, Self::Error>;

    fn version(&self) -> Result<String, Self::Error>;
}

/// Where an application lives.
pub trait AppPath {
    type Error;

    /// e.g. `~/.cargo/`
    fn home_path(&self) -> Result<String, Self::Error>;

    /// e.g. `~/.cargo/bin/rustup`
    fn bin_path(&self) -> Result<String, Self::Error>;
}

} // verus!
