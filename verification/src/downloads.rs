//! Where the recording of a class can be downloaded from the storage.
use vstd::prelude::*;
use crate::error::{failure, AppError, ErrorKind};
use crate::frontend::{parses_as_url, url_parses};
use crate::ids::{uuid_text, uuid_to_string};
use crate::postprocessing::Recording;

verus! {

/// The text of a URL after `url::Url::set_path` with the given path.
pub uninterp spec fn url_with_path(url: Seq<char>, path: Seq<char>) -> Seq<char>;

/// Whether a URL can be a base (`!url::Url::cannot_be_a_base()`), so that
/// path segments can be appended to it.
pub uninterp spec fn url_can_be_base(url: Seq<char>) -> bool;

/// The text of a URL after its path segments were extended, with
/// `url::Url::path_segments_mut` and `extend`, by the given segments.
pub uninterp spec fn url_with_segments(url: Seq<char>, segments: Seq<Seq<char>>) -> Seq<char>;

/// Replaces the path of a URL, with `url::Url::parse` and `set_path`, and
/// gives the result's text, which is `url_with_path` of the arguments.
#[verifier::external_body]
fn with_path(url: &str, path: &str) -> (r: String)
    requires
        url_parses(url@),
        url@.len() + path@.len() < 0x0100_0000,
    ensures
        r@ == url_with_path(url@, path@),
{
    let mut u = url::Url::parse(url).unwrap();
    u.set_path(path);
    u.to_string()
}

/// Whether a text is a URL that can be a base: `url::Url::parse` accepts it
/// and `cannot_be_a_base` is false.
#[verifier::external_body]
fn is_base_url(text: &str) -> (r: bool)
    ensures
        r == (url_parses(text@) && url_can_be_base(text@)),
{
    match url::Url::parse(text) {
        Ok(u) => !u.cannot_be_a_base(),
        Err(_) => false,
    }
}

/// Extends the path of a URL by segments, with `url::Url::parse`,
/// `path_segments_mut` and `extend`, and gives the result's text, which is
/// `url_with_segments` of the arguments.
#[verifier::external_body]
fn with_path_segments(url: &str, segments: &Vec<String>) -> (r: String)
    requires
        url_parses(url@),
        url_can_be_base(url@),
        url@.len() < 0x0010_0000,
        segments@.len() <= 16,
        forall|i: int| 0 <= i < segments@.len() ==> (#[trigger] segments@[i])@.len() < 0x0010_0000,
    ensures
        r@ == url_with_segments(url@, segments@.map_values(|s: String| s@)),
{
    let mut u = url::Url::parse(url).unwrap();
    u.path_segments_mut().unwrap().extend(segments.iter());
    u.to_string()
}

/// The storage path of a minigroup's recording.
pub open spec fn minigroup_download_path(audience: Seq<char>, scope: Seq<char>) -> Seq<char> {
    "/api/v2/backends/yandex/sets/ms.minigroup."@ + audience + "::"@ + scope + "/objects/mp4"@
}

/// Where a minigroup's recording is downloaded from: only once every
/// recording of it has been transcoded. A storage base that is no URL is
/// the service's own failure.
pub fn minigroup_download_url(
    base: &str,
    audience: &str,
    scope: &str,
    recordings: &Vec<Recording>,
) -> (r: Result<String, AppError>)
    requires
        base@.len() + minigroup_download_path(audience@, scope@).len() < 0x0100_0000,
    ensures
        !(forall|i: int| 0 <= i < recordings@.len() ==> (#[trigger] recordings@[i]).transcoded_at is Some)
            ==> (r matches Err(e) && e.spec_kind() == ErrorKind::RecordingNotFound),
        (forall|i: int| 0 <= i < recordings@.len() ==> (#[trigger] recordings@[i]).transcoded_at is Some)
            ==> (if url_parses(base@) {
            (r matches Ok(u) && u@ == url_with_path(base@, minigroup_download_path(audience@, scope@)))
        } else {
            (r matches Err(e) && e.spec_kind() == ErrorKind::InternalFailure)
        }),
{
    let mut i: usize = 0;
    while i < recordings.len()
        invariant
            i <= recordings@.len(),
            forall|j: int| 0 <= j < i ==> (#[trigger] recordings@[j]).transcoded_at is Some,
        decreases recordings@.len() - i,
    {
        if recordings[i].transcoded_at.is_none() {
            return Err(
                AppError::new(
                    ErrorKind::RecordingNotFound,
                    failure("Minigroup recordings were not transcoded"),
                ),
            );
        }
        i = i + 1;
    }
    if !parses_as_url(base) {
        return Err(AppError::new(ErrorKind::InternalFailure, failure("Invalid storage base url")));
    }
    let path = "/api/v2/backends/yandex/sets/ms.minigroup.".to_owned().concat(audience).concat(
        "::",
    ).concat(scope).concat("/objects/mp4");
    Ok(with_path(base, path.as_str()))
}

/// The path segments of a webinar recording in the storage.
pub open spec fn webinar_download_segments(audience: Seq<char>, rtc_id: u128) -> Seq<Seq<char>> {
    seq![
        "api"@,
        "v2"@,
        "backends"@,
        "yandex"@,
        "sets"@,
        "ms.webinar."@ + audience + "::"@ + uuid_text(rtc_id),
        "objects"@,
        "mp4"@,
    ]
}

/// Where a webinar's recording is downloaded from: that of its first
/// recording, there being one. The storage base must be a URL that can be a
/// base; see `checked_webinar_download_url` for any base.
pub fn webinar_download_url(base: &str, audience: &str, recordings: &Vec<Recording>) -> (r: Result<
    String,
    AppError,
>)
    requires
        url_parses(base@),
        url_can_be_base(base@),
        base@.len() < 0x0010_0000,
        audience@.len() < 0x0008_0000,
    ensures
        recordings@.len() == 0 ==> (r matches Err(e) && e.spec_kind() == ErrorKind::RecordingNotFound),
        recordings@.len() > 0 ==> (r matches Ok(u) && u@ == url_with_segments(
            base@,
            webinar_download_segments(audience@, recordings@[0].rtc_id),
        )),
{
    if recordings.len() == 0 {
        return Err(AppError::new(ErrorKind::RecordingNotFound, failure("Zero webinar recordings")));
    }
    let rtc_id = recordings[0].rtc_id;
    let id_text = uuid_to_string(rtc_id);
    let recording_id = "ms.webinar.".to_owned().concat(audience).concat("::").concat(
        id_text.as_str(),
    );
    let segments = vec![
        "api".to_owned(),
        "v2".to_owned(),
        "backends".to_owned(),
        "yandex".to_owned(),
        "sets".to_owned(),
        recording_id,
        "objects".to_owned(),
        "mp4".to_owned(),
    ];
    proof {
        reveal_strlit("ms.webinar.");
        reveal_strlit("::");
        assert(segments@.map_values(|s: String| s@) =~= webinar_download_segments(audience@, rtc_id));
        reveal_strlit("api");
        reveal_strlit("v2");
        reveal_strlit("backends");
        reveal_strlit("yandex");
        reveal_strlit("sets");
        reveal_strlit("objects");
        reveal_strlit("mp4");
        assert forall|i: int| 0 <= i < segments@.len() implies (#[trigger] segments@[i])@.len()
            < 0x0010_0000 by {
            assert(segments@[i]@ == webinar_download_segments(audience@, rtc_id)[i]);
        }
    }
    Ok(with_path_segments(base, &segments))
}

/// Where a webinar's recording is downloaded from, for any storage base:
/// `None` where the base is no URL that can be a base (where the service
/// would stop), else as `webinar_download_url` says.
pub fn checked_webinar_download_url(
    base: &str,
    audience: &str,
    recordings: &Vec<Recording>,
) -> (r: Option<Result<String, AppError>>)
    requires
        base@.len() < 0x0010_0000,
        audience@.len() < 0x0008_0000,
    ensures
        r is None <==> !(url_parses(base@) && url_can_be_base(base@)),
        r matches Some(x) ==> {
            &&& recordings@.len() == 0 ==> (x matches Err(e) && e.spec_kind() == ErrorKind::RecordingNotFound)
            &&& recordings@.len() > 0 ==> (x matches Ok(u) && u@ == url_with_segments(
                base@,
                webinar_download_segments(audience@, recordings@[0].rtc_id),
            ))
        },
{
    if is_base_url(base) {
        Some(webinar_download_url(base, audience, recordings))
    } else {
        None
    }
}

} // verus!
