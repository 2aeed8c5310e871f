//! Converting handler return values into responses.
use vstd::prelude::*;

use crate::common::response::{blank_message, implied_filename, FileSource, MessageModel, Response, ResponseModel};
use crate::text::{opt_view, push_str, to_owned};

verus! {

broadcast use vstd::string::group_string_axioms;

/// `std::path::PathBuf`, carried opaquely: a path that a handler returns.
#[verifier::external_type_specification]
#[verifier::external_body]
pub struct ExPathBuf(std::path::PathBuf);

/// What `Path::to_string_lossy` gives for a path: its text, with each invalid
/// sequence replaced by U+FFFD. A function of the path alone.
pub uninterp spec fn lossy_path_text(path: std::path::PathBuf) -> Seq<char>;

/// `Path::to_string_lossy` of a `PathBuf`, owned. Claimed: the text is
/// `lossy_path_text` of the path; how its bytes become characters is left to
/// that name.
#[verifier::external_body]
fn path_buf_text(path: &std::path::PathBuf) -> (r: String)
    ensures
        r@ == lossy_path_text(*path),
{
    path.to_string_lossy().into_owned()
}

/// A text response carrying `content`.
pub open spec fn text_model(content: Seq<char>) -> ResponseModel {
    ResponseModel::Message(MessageModel { content, ..blank_message() })
}

/// Trait for converting types into bot responses
///
/// Handlers return various types that get converted to responses: strings
/// become text, `()` and `None` become empty, `Err(e)` becomes `Error: {e}`.
pub trait IntoResponse: Sized {
    /// Convert this type into a bot response
    fn into_response(self) -> Response;
}

impl IntoResponse for String {
    fn into_response(self) -> (r: Response)
        ensures
            r@ == text_model(self@),
    {
        Response::text(self.as_str())
    }
}

impl IntoResponse for &'static str {
    fn into_response(self) -> (r: Response)
        ensures
            r@ == text_model(self@),
    {
        Response::text(self)
    }
}

/// Borrowed or owned text becomes a text message.
impl IntoResponse for std::borrow::Cow<'static, str> {
    fn into_response(self) -> (r: Response)
        ensures
            r@ == text_model(self@),
    {
        match self {
            std::borrow::Cow::Borrowed(b) => Response::text(b),
            std::borrow::Cow::Owned(o) => Response::text(o.as_str()),
        }
    }
}

impl IntoResponse for Response {
    fn into_response(self) -> (r: Response)
        ensures
            r == self,
    {
        self
    }
}

impl IntoResponse for () {
    fn into_response(self) -> (r: Response)
        ensures
            r@ == ResponseModel::Empty,
    {
        Response::empty()
    }
}

impl<T: IntoResponse> IntoResponse for Option<T> {
    fn into_response(self) -> (r: Response)
        ensures
            self is None ==> r@ == ResponseModel::Empty,
            self matches Some(v) ==> call_ensures(T::into_response, (v,), r),
    {
        match self {
            Some(value) => value.into_response(),
            None => Response::empty(),
        }
    }
}

/// `Err` is rendered to the user as `Error: {e}`.
impl<T: IntoResponse, E: core::fmt::Display> IntoResponse for Result<T, E> {
    fn into_response(self) -> (r: Response)
        ensures
            self matches Ok(v) ==> call_ensures(T::into_response, (v,), r),
            self matches Err(e) ==> exists|t: String|
                vstd::string::to_string_from_display_ensures(&e, t) && r@ == text_model(
                    "Error: "@ + t@,
                ),
    {
        match self {
            Ok(value) => value.into_response(),
            Err(e) => {
                let t = e.to_string();
                let mut content = to_owned("Error: ");
                push_str(&mut content, t.as_str());
                Response::text(content.as_str())
            },
        }
    }
}

impl IntoResponse for async_fs::File {
    fn into_response(self) -> (r: Response)
        ensures
            r@ matches ResponseModel::File(f) && f.file == FileSource::File(self) && f.filename is None
                && f.caption is None,
    {
        Response::file(self)
    }
}

impl IntoResponse for std::path::PathBuf {
    fn into_response(self) -> (r: Response)
        ensures
            r@ matches ResponseModel::File(f) && (f.file matches FileSource::Path(p) && p@
                == lossy_path_text(self)) && opt_view(f.filename) == implied_filename(f.file)
                && f.caption is None,
    {
        let text = path_buf_text(&self);
        Response::path(text.as_str())
    }
}

impl<'a> IntoResponse for (async_fs::File, &'a str) {
    fn into_response(self) -> (r: Response)
        ensures
            r@ matches ResponseModel::File(f) && f.file == FileSource::File(self.0) && f.filename is None
                && opt_view(f.caption) == Some(self.1@),
    {
        let (file, caption) = self;
        Response::file(file).with_caption(caption)
    }
}

impl<'a> IntoResponse for (std::path::PathBuf, &'a str) {
    fn into_response(self) -> (r: Response)
        ensures
            r@ matches ResponseModel::File(f) && (f.file matches FileSource::Path(p) && p@
                == lossy_path_text(self.0)) && opt_view(f.filename) == implied_filename(f.file)
                && opt_view(f.caption) == Some(self.1@),
    {
        let (path, caption) = self;
        path.into_response().with_caption(caption)
    }
}

} // verus!
