//! Where the nightly build of the language server is downloaded from.
use crate::platform::{platform_of_lookup, resolve_platform, Platform};
use vstd::prelude::*;
use vstd::string::*;

verus! {

/// The name of the language-server binary, which is also the owner and the
/// name of the repository that releases it.
pub open spec fn analyzer_name() -> Seq<char> {
    "rust-analyzer"@
}

/// The tag that ends the name of a release asset for `platform`.
pub open spec fn platform_tag(platform: Platform) -> Seq<char> {
    match platform {
        Platform::Linux => "linux"@,
        Platform::Mac => "mac"@,
    }
}

/// The address of the nightly release asset of `bin_name` for `platform`,
/// in the repository that has the binary's name twice: as its owner and as
/// its own name.
pub open spec fn download_url_of(bin_name: Seq<char>, platform: Platform) -> Seq<char> {
    "https://github.com/"@ + bin_name + "/"@ + bin_name + "/releases/download/nightly/"@ + bin_name
        + "-"@ + platform_tag(platform)
}

impl Platform {
    /// The tag that ends the name of a release asset for this platform.
    pub fn tag(&self) -> (tag: &'static str)
        ensures
            tag@ == platform_tag(*self),
    {
        match self {
            Platform::Linux => "linux",
            Platform::Mac => "mac",
        }
    }
}

/// Builds the address of the nightly release asset of `bin_name` for
/// `platform`.
pub fn build_download_url(bin_name: &str, platform: Platform) -> (url: String)
    ensures
        url@ == download_url_of(bin_name@, platform),
{
    let mut url = String::from_str("https://github.com/");
    url.append(bin_name);
    url.append("/");
    url.append(bin_name);
    url.append("/releases/download/nightly/");
    url.append(bin_name);
    url.append("-");
    url.append(platform.tag());
    url
}

/// The address of the language server's release asset.
#[derive(Clone, Debug, PartialEq, Eq)]
pub struct Url {
    pub uri: String,
}

impl Url {
    /// An address that has not been built yet: its text is empty.
    pub fn new() -> (url: Url)
        ensures
            url.uri@ == Seq::<char>::empty(),
    {
        Url { uri: String::new() }
    }

    /// The address of the language server's nightly build for `platform`.
    pub fn for_platform(platform: Platform) -> (url: Url)
        ensures
            url.uri@ == download_url_of(analyzer_name(), platform),
    {
        Url { uri: build_download_url("rust-analyzer", platform) }
    }

    /// Builds the text of the address for the machine the program runs on.
    /// It is the address for the platform that the operating system's
    /// identifier stands for, whatever that identifier turns out to be.
    pub fn build_url(&self) -> (uri: String)
        ensures
            exists|os_name: Option<Seq<char>>|
                uri@ == download_url_of(analyzer_name(), #[trigger] platform_of_lookup(os_name)),
    {
        let platform = resolve_platform();
        build_download_url("rust-analyzer", platform)
    }

    /// This address with its text built for the machine the program runs on.
    pub fn get_url(self) -> (url: Url)
        ensures
            exists|os_name: Option<Seq<char>>|
                url.uri@ == download_url_of(
                    analyzer_name(),
                    #[trigger] platform_of_lookup(os_name),
                ),
    {
        let uri = self.build_url();
        Url { uri }
    }
}

} // verus!
