//! What the screens need to know of the video that is open.

use vstd::prelude::*;

verus! {

/// The open video as the screens see it: its frame size in pixels and its
/// length in nanoseconds.
#[derive(Debug, Clone, Copy, PartialEq, Eq, Structural)]
pub struct VideoData {
    pub width: u16,
    pub height: u16,
    pub duration: u128,
}


/// `url::Url::from_file_path`, written out as text: the `file:` URL of an
/// absolute path, or `None` for a path that this platform does not count as
/// absolute (the test and the escaping of the path depend on the platform,
/// so nothing more is stated of the result than its scheme).
#[verifier::external_body]
fn file_url_from_path(path: &str) -> (r: Option<String>)
    ensures
        r matches Some(u) ==> u@.len() >= 7 && u@.take(7) == "file://"@,
{
    match url::Url::from_file_path(path) {
        Ok(u) => Some(String::from(u)),
        Err(()) => None,
    }
}

/// What opening the video at `path` gives, from the URL its path was
/// converted to (`None` where it could not be): that URL, or the message for
/// a path that cannot be written as a `file:` URL.
pub fn url_result(converted: Option<String>, path: &str) -> (r: Result<String, String>)
    ensures
        match converted {
            Some(u) => r == Ok::<String, String>(u),
            None => r matches Err(m) && m@ == "Could not load URL from path_buf "@ + path@,
        },
{
    match converted {
        Some(u) => Ok(u),
        None => {
            let mut m = "Could not load URL from path_buf ".to_owned();
            m.append(path);
            Err(m)
        },
    }
}

/// The URL under which the video at `path` is opened, or the message for a
/// path that cannot be written as a `file:` URL.
pub fn video_url(path: &str) -> (r: Result<String, String>)
    ensures
        r matches Ok(u) ==> u@.len() >= 7 && u@.take(7) == "file://"@,
        r matches Err(m) ==> m@ == "Could not load URL from path_buf "@ + path@,
{
    url_result(file_url_from_path(path), path)
}

} // verus!
