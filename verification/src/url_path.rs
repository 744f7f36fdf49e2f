//! Building the secret URL path for the shared resource.
//!
//! The path is `/<prefix>` for piped input or `/<prefix>/<file name>` for a
//! shared file, where `<prefix>` is a random alphanumeric segment of the
//! configured length. The randomness comes from the `rand` crate behind a
//! trusted wrapper; everything around it is verified.

use vstd::prelude::*;
use vstd::string::StringExecFns;

use rand::distr::SampleString;

verus! {

/// An ASCII letter or digit: the only characters the random prefix is drawn
/// from, so the path needs no escaping anywhere.
pub open spec fn is_alphanumeric_char(c: char) -> bool {
    ('a' <= c && c <= 'z') || ('A' <= c && c <= 'Z') || ('0' <= c && c <= '9')
}

/// Relies on rand's `Alphanumeric` distribution and `SampleString`: the
/// sampled string holds exactly `len` characters, each drawn from
/// `a-z`, `A-Z` and `0-9`. Nothing is assumed about which characters come
/// out: every outcome of the generator satisfies this contract.
#[verifier::external_body]
fn random_alphanumeric(len: u16) -> (r: String)
    ensures
        r@.len() == len as nat,
        forall|i: int| 0 <= i < r@.len() ==> is_alphanumeric_char(#[trigger] r@[i]),
{
    rand::distr::Alphanumeric.sample_string(&mut rand::rng(), usize::from(len))
}

/// The length the generated path must have: the leading slash, the prefix,
/// and for a shared file one more slash and the file name.
pub open spec fn url_path_len(file_name: Option<Seq<char>>, url_prefix_length: u16) -> int {
    match file_name {
        Some(name) => 2 + url_prefix_length + name.len(),
        None => 1 + url_prefix_length,
    }
}

/// Generate the secret path under which the resource is served.
///
/// The result starts with `/`, followed by a random alphanumeric prefix of
/// exactly `url_prefix_length` characters; when a file name is given, one
/// more `/` and the unchanged file name follow.
pub fn generate_file_url_path(file_name: &Option<String>, url_prefix_length: u16) -> (r: String)
    ensures
        r@.len() == url_path_len(
            match file_name {
                Some(name) => Some(name@),
                None => None,
            },
            url_prefix_length,
        ),
        r@[0] == '/',
        forall|i: int|
            1 <= i < 1 + url_prefix_length ==> is_alphanumeric_char(#[trigger] r@[i]),
        file_name matches Some(name) ==> r@[1 + url_prefix_length as int] == '/' && r@.skip(
            2 + url_prefix_length as int,
        ) == name@,
{
    let prefix = random_alphanumeric(url_prefix_length);
    let mut path = String::from_str("/");
    proof {
        reveal_strlit("/");
    }
    path.append(prefix.as_str());
    match file_name {
        Some(name) => {
            path.append("/");
            path.append(name.as_str());
            proof {
                assert(path@.skip(2 + url_prefix_length as int) =~= name@);
            }
        },
        None => {},
    }
    path
}

} // verus!
