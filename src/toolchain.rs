//! The command lines of the local build and signing tools. Running them is
//! the host's business; choosing their arguments is decided here.
use vstd::prelude::*;
use vstd::string::*;
use crate::protocol::views;

verus! {

/// Name of the test certificate store used to sign the driver.
pub open spec fn cert_store() -> Seq<char> {
    "PrivateCertStore"@
}

/// The build output directory below the target directory.
pub open spec fn profile_dir_of(release: bool) -> Seq<char> {
    if release {
        "release"@
    } else {
        "debug"@
    }
}

/// The build output directory below the target directory: `release` or
/// `debug`.
pub fn profile_dir(release: bool) -> (r: String)
    ensures
        r@ == profile_dir_of(release),
{
    if release {
        String::from_str("release")
    } else {
        String::from_str("debug")
    }
}

/// The arguments of the compiler driver that builds package `package`.
pub open spec fn build_args_of(package: Seq<char>, release: bool) -> Seq<Seq<char>> {
    if release {
        seq!["build"@, "--release"@, "--package"@, package]
    } else {
        seq!["build"@, "--package"@, package]
    }
}

/// The arguments of the compiler driver that builds package `package`, in
/// release mode when `release` is set.
pub fn build_args(package: &str, release: bool) -> (r: Vec<String>)
    ensures
        views(r@) == build_args_of(package@, release),
{
    let mut v: Vec<String> = Vec::new();
    v.push(String::from_str("build"));
    if release {
        v.push(String::from_str("--release"));
    }
    v.push(String::from_str("--package"));
    v.push(String::from_str(package));
    proof {
        assert(views(v@) =~= build_args_of(package@, release));
    }
    v
}

/// The arguments of the tool that creates the self-signed test certificate.
pub open spec fn makecert_args_of() -> Seq<Seq<char>> {
    seq!["-r"@, "-pe"@, "-ss"@, cert_store(), "-n"@, "CN=DriverCertificate"@, "DriverCertificate.cer"@]
}

/// The arguments of the tool that creates the self-signed test certificate.
pub fn makecert_args() -> (r: Vec<String>)
    ensures
        views(r@) == makecert_args_of(),
{
    let mut v: Vec<String> = Vec::new();
    v.push(String::from_str("-r"));
    v.push(String::from_str("-pe"));
    v.push(String::from_str("-ss"));
    v.push(String::from_str("PrivateCertStore"));
    v.push(String::from_str("-n"));
    v.push(String::from_str("CN=DriverCertificate"));
    v.push(String::from_str("DriverCertificate.cer"));
    proof {
        assert(views(v@) =~= makecert_args_of());
    }
    v
}

/// The arguments of the tool that signs the driver at `target` with the test
/// certificate and a timestamp.
pub open spec fn signtool_args_of(target: Seq<char>) -> Seq<Seq<char>> {
    seq![
        "sign"@,
        "/a"@,
        "/v"@,
        "/s"@,
        cert_store(),
        "/n"@,
        "DriverCertificate"@,
        "/fd"@,
        "sha256"@,
        "/t"@,
        "http://timestamp.digicert.com"@,
        target,
    ]
}

/// The arguments of the tool that signs the driver at `target`.
pub fn signtool_args(target: &str) -> (r: Vec<String>)
    ensures
        views(r@) == signtool_args_of(target@),
{
    let mut v: Vec<String> = Vec::new();
    v.push(String::from_str("sign"));
    v.push(String::from_str("/a"));
    v.push(String::from_str("/v"));
    v.push(String::from_str("/s"));
    v.push(String::from_str("PrivateCertStore"));
    v.push(String::from_str("/n"));
    v.push(String::from_str("DriverCertificate"));
    v.push(String::from_str("/fd"));
    v.push(String::from_str("sha256"));
    v.push(String::from_str("/t"));
    v.push(String::from_str("http://timestamp.digicert.com"));
    v.push(String::from_str(target));
    proof {
        assert(views(v@) =~= signtool_args_of(target@));
    }
    v
}

} // verus!
