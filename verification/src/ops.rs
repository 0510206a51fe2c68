//! The handler: from a request, and what the caller found in the file
//! system for it, to the response that is owed.

use crate::error::{Error, ErrorView};
use crate::http::{
    method_name, Body, BodyView, Header, Method, MethodView, Request, RequestView, Response,
    ResponseView, Status,
};
use crate::listing::{
    display_path, display_path_of, href_base, href_base_of, is_visible, list_items, render_items,
    url_path, url_path_of, DirEntry, DirEntryView,
};
use crate::mime::{content_type, content_type_of, guess_mime_type_opt, guessed_mime_type, text_of};
use crate::options::{ConfigView, HostedDirectory, Options, Templates};
use crate::path::{
    decodable_segments_walk_clean, link_at, link_on_path_is_seen, resolve, resolved,
    seen_link_is_on_path, undecodable_segment_marks_walk, walk_reads_its_segments_only,
    walk_without_links, ResolvedPath, ResolvedPathView,
};
use crate::percent::{percent_decoded, text_without_percent_decodes_to_itself};
use crate::ports::{BindAttempt, BindAttemptView, PortStep, PortStepView};
use crate::snapshot::{Snapshot, SnapshotView, Target, TargetView};
use crate::template::{filled, html_response};
use crate::text::{contains, contains_seq, eq_ignore_ascii_case, occurs_at, same_ignoring_case};
use vstd::prelude::*;

verus! {

/// Answers requests for what lies below one directory.
#[derive(Clone, Debug, PartialEq, Eq, PartialOrd, Ord, Hash)]
pub struct HttpHandler {
    pub hosted_directory: HostedDirectory,
    pub follow_symlinks: bool,
    pub templates: Templates,
}

impl View for HttpHandler {
    type V = ConfigView;

    open spec fn view(&self) -> ConfigView {
        ConfigView {
            alias: self.hosted_directory.alias@,
            root: self.hosted_directory.path@,
            follow_symlinks: self.follow_symlinks,
            error_template: self.templates.error@,
            listing_template: self.templates.directory_listing@,
        }
    }
}

/// An HTML page sent with the status `status`.
pub open spec fn html_page(status: Status, page: Seq<char>) -> ResponseView {
    ResponseView {
        status,
        headers: seq![("Content-Type"@, "text/html;charset=utf-8"@)],
        body: BodyView::Html(page),
    }
}

/// The answer to OPTIONS: the four methods that are served.
pub open spec fn options_response() -> ResponseView {
    ResponseView {
        status: Status::Okay,
        headers: seq![("Allow"@, "OPTIONS, GET, HEAD, TRACE"@)],
        body: BodyView::Empty,
    }
}

/// The answer to a request whose URL cannot be read, with the cause as the
/// page's detail.
pub open spec fn invalid_url_response(
    error_template: Seq<char>,
    cause: Seq<char>,
) -> ResponseView {
    html_page(
        Status::BadRequest,
        filled(
            error_template,
            seq!["400 Bad Request"@, "The request URL couldn't be parsed."@, cause],
        ),
    )
}

/// The answer to a request for what is not there, or may not be reached.
pub open spec fn nonexistant_response(
    error_template: Seq<char>,
    url_path: Seq<char>,
) -> ResponseView {
    html_page(
        Status::NotFound,
        filled(
            error_template,
            seq![
                "404 Not Found"@,
                "The requested entity \""@ + url_path + "\" doesn't exist."@,
                ""@,
            ],
        ),
    )
}

/// The answer that serves a file with the bytes `contents`, for whose name
/// the table of extensions gave `guess`.
pub open spec fn file_response(guess: Option<Seq<char>>, contents: Seq<u8>) -> ResponseView {
    ResponseView {
        status: Status::Okay,
        headers: seq![("Content-Type"@, content_type_of(guess, contents))],
        body: BodyView::Bytes(contents),
    }
}

/// The answer that lists a directory with the entries `entries`, asked for
/// under `url_path`.
pub open spec fn dir_response(
    listing_template: Seq<char>,
    url_path: Seq<char>,
    entries: Seq<DirEntryView>,
    follow_symlinks: bool,
) -> ResponseView {
    let shown_under = display_path_of(url_path);
    html_page(
        Status::Okay,
        filled(
            listing_template,
            seq![shown_under, list_items(href_base_of(shown_under), entries, follow_symlinks)],
        ),
    )
}

/// Whether a header says what the content type is.
pub open spec fn is_content_type(header: (Seq<char>, Seq<char>)) -> bool {
    same_ignoring_case(header.0, "Content-Type"@)
}

/// The headers of the answer to TRACE: those of the request but for its
/// content type, in their order, and after them the content type of the
/// answer.
pub open spec fn trace_headers(headers: Seq<(Seq<char>, Seq<char>)>) -> Seq<
    (Seq<char>, Seq<char>),
> {
    headers.filter(|h: (Seq<char>, Seq<char>)| !is_content_type(h)).push(
        ("Content-Type"@, "message/http"@),
    )
}

/// The answer to TRACE.
pub open spec fn trace_response(headers: Seq<(Seq<char>, Seq<char>)>) -> ResponseView {
    ResponseView { status: Status::Okay, headers: trace_headers(headers), body: BodyView::Empty }
}

/// The methods that are served, as the page that refuses another names them.
pub open spec fn supported_methods() -> Seq<char> {
    "OPTIONS, GET, HEAD and TRACE"@
}

/// The detail of the page that refuses the method `name`.
pub open spec fn bad_method_detail(name: Seq<char>) -> Seq<char> {
    "<p>Unsupported request method: "@ + name + ".<br />Supported methods: "@
        + supported_methods() + ".</p>"@
}

/// The answer to a method that is not served.
pub open spec fn bad_method_response(error_template: Seq<char>, name: Seq<char>) -> ResponseView {
    html_page(
        Status::NotImplemented,
        filled(
            error_template,
            seq![
                "501 Not Implemented"@,
                "This operation was not implemented."@,
                bad_method_detail(name),
            ],
        ),
    )
}

/// The name of the file that a path ends in: its last component, or the
/// hosted directory where it has none.
pub open spec fn file_name_of(path: ResolvedPathView) -> Seq<char> {
    if path.components.len() > 0 {
        path.components.last()
    } else {
        path.root
    }
}

/// Why a URL is refused.
pub open spec fn decoding_failed() -> Seq<char> {
    "<p>Percent-encoding decoded to invalid UTF-8.</p>"@
}

/// The answer to GET for the path `segments`, given what the caller found.
pub open spec fn get_response(
    config: ConfigView,
    segments: Seq<Seq<char>>,
    found: SnapshotView,
) -> ResponseView {
    let path = resolved(config.root, segments, found.links);
    if path.url_err {
        invalid_url_response(config.error_template, decoding_failed())
    } else if found.target is Missing || (path.symlink && !config.follow_symlinks) {
        nonexistant_response(config.error_template, url_path_of(segments))
    } else {
        match found.target {
            TargetView::File(contents) => file_response(
                guessed_mime_type(file_name_of(path)),
                contents,
            ),
            TargetView::Directory(entries) => dir_response(
                config.listing_template,
                url_path_of(segments),
                entries,
                config.follow_symlinks,
            ),
            TargetView::Missing => nonexistant_response(
                config.error_template,
                url_path_of(segments),
            ),
        }
    }
}

/// `response` without its body.
pub open spec fn without_body(response: ResponseView) -> ResponseView {
    ResponseView { status: response.status, headers: response.headers, body: BodyView::Empty }
}

/// The answer to `request`, given what the caller found.
pub open spec fn response_to(
    config: ConfigView,
    request: RequestView,
    found: SnapshotView,
) -> ResponseView {
    match request.method {
        MethodView::Options => options_response(),
        MethodView::Get => get_response(config, request.path, found),
        MethodView::Head => without_body(get_response(config, request.path, found)),
        MethodView::Trace => trace_response(request.headers),
        MethodView::Other(name) => bad_method_response(config.error_template, name),
    }
}

/// The response with the status `status` and the HTML page `page`.
fn html(status: Status, page: String) -> (r: Response)
    ensures
        r@ == html_page(status, page@),
{
    let mut headers: Vec<Header> = Vec::new();
    headers.push(Header::new("Content-Type", "text/html;charset=utf-8"));
    let r = Response { status, headers, body: Body::Html(page) };
    assert(r.headers.deep_view() == seq![("Content-Type"@, "text/html;charset=utf-8"@)]);
    r
}

/// The error page with the three substitutions.
fn error_page(template: &str, title: &str, message: String, detail: String) -> (r: String)
    ensures
        r@ == filled(template@, seq![title@, message@, detail@]),
{
    let mut args: Vec<String> = Vec::new();
    args.push(title.to_string());
    args.push(message);
    args.push(detail);
    assert(args.deep_view() == seq![title@, message@, detail@]);
    html_response(template, &args)
}

impl HttpHandler {
    /// The handler for the settings `opts`.
    pub fn new(opts: &Options) -> (r: HttpHandler)
        ensures
            r@ == opts@,
    {
        HttpHandler {
            hosted_directory: HostedDirectory {
                alias: opts.hosted_directory.alias.clone(),
                path: opts.hosted_directory.path.clone(),
            },
            follow_symlinks: opts.follow_symlinks,
            templates: Templates {
                error: opts.templates.error.clone(),
                directory_listing: opts.templates.directory_listing.clone(),
            },
        }
    }

    /// Answers OPTIONS.
    pub fn handle_options(&self) -> (r: Response)
        ensures
            r@ == options_response(),
    {
        let mut headers: Vec<Header> = Vec::new();
        headers.push(Header::new("Allow", "OPTIONS, GET, HEAD, TRACE"));
        let r = Response { status: Status::Okay, headers, body: Body::Empty };
        assert(r.headers.deep_view() == seq![("Allow"@, "OPTIONS, GET, HEAD, TRACE"@)]);
        r
    }

    /// Answers a request whose URL cannot be read.
    pub fn handle_invalid_url(&self, cause: &str) -> (r: Response)
        ensures
            r@ == invalid_url_response(self@.error_template, cause@),
    {
        let page = error_page(
            self.templates.error.as_str(),
            "400 Bad Request",
            "The request URL couldn't be parsed.".to_string(),
            cause.to_string(),
        );
        html(Status::BadRequest, page)
    }

    /// Answers a request for what is not there, or may not be reached.
    pub fn handle_get_nonexistant(&self, req: &Request) -> (r: Response)
        ensures
            r@ == nonexistant_response(self@.error_template, url_path_of(req@.path)),
    {
        let mut message = "The requested entity \"".to_string();
        let asked = url_path(&req.path);
        message.append(asked.as_str());
        message.append("\" doesn't exist.");
        let page = error_page(
            self.templates.error.as_str(),
            "404 Not Found",
            message,
            "".to_string(),
        );
        html(Status::NotFound, page)
    }

    /// Answers a method that is not served.
    pub fn handle_bad_method(&self, req: &Request) -> (r: Response)
        ensures
            r@ == bad_method_response(self@.error_template, method_name(req@.method)),
    {
        let mut detail = "<p>Unsupported request method: ".to_string();
        let name = req.method.name();
        detail.append(name.as_str());
        detail.append(".<br />Supported methods: ");
        detail.append("OPTIONS, GET, HEAD and TRACE");
        detail.append(".</p>");
        let page = error_page(
            self.templates.error.as_str(),
            "501 Not Implemented",
            "This operation was not implemented.".to_string(),
            detail,
        );
        html(Status::NotImplemented, page)
    }

    /// Serves a file with the bytes `contents`, for whose name the table of
    /// extensions gave `guess`.
    pub fn serve_file(guess: Option<String>, contents: Vec<u8>) -> (r: Response)
        ensures
            r@ == file_response(text_of(guess), contents@),
    {
        let mime = content_type(guess, &contents);
        let mut headers: Vec<Header> = Vec::new();
        headers.push(Header::new("Content-Type", mime.as_str()));
        let r = Response { status: Status::Okay, headers, body: Body::Bytes(contents) };
        assert(r.headers.deep_view() == seq![("Content-Type"@, mime@)]);
        r
    }

    /// Serves the file at `path`, with the bytes `contents`.
    pub fn handle_get_file(&self, path: &ResolvedPath, contents: Vec<u8>) -> (r: Response)
        ensures
            r@ == file_response(guessed_mime_type(file_name_of(path@)), contents@),
    {
        let n = path.components.len();
        let guess = if n > 0 {
            assert(path.components.deep_view().last() == path.components[n - 1]@);
            guess_mime_type_opt(path.components[n - 1].as_str())
        } else {
            guess_mime_type_opt(path.root.as_str())
        };
        HttpHandler::serve_file(guess, contents)
    }

    /// Lists the directory that `req` asked for, with the entries `entries`.
    pub fn handle_get_dir(&self, req: &Request, entries: &Vec<DirEntry>) -> (r: Response)
        ensures
            r@ == dir_response(
                self@.listing_template,
                url_path_of(req@.path),
                entries.deep_view(),
                self@.follow_symlinks,
            ),
    {
        let asked = url_path(&req.path);
        let shown_under = display_path(asked.as_str());
        let base = href_base(shown_under.as_str());
        let items = render_items(base.as_str(), entries, self.follow_symlinks);
        let mut args: Vec<String> = Vec::new();
        let ghost shown = shown_under@;
        args.push(shown_under);
        args.push(items);
        assert(args.deep_view() == seq![shown, items@]);
        let page = html_response(self.templates.directory_listing.as_str(), &args);
        html(Status::Okay, page)
    }

    /// Answers TRACE: the request's headers come back.
    pub fn handle_trace(&self, req: &Request) -> (r: Response)
        ensures
            r@ == trace_response(req@.headers),
    {
        let mut headers: Vec<Header> = Vec::new();
        let ghost keep = |h: (Seq<char>, Seq<char>)| !is_content_type(h);
        let ghost all = req.headers.deep_view();
        let mut i: usize = 0;
        assert(all.take(0) == Seq::<(Seq<char>, Seq<char>)>::empty());
        assert(all.take(0).filter(keep) == all.take(0)) by {
            all.take(0).lemma_filter_len(keep);
        }
        while i < req.headers.len()
            invariant
                i <= req.headers.len(),
                all == req.headers.deep_view(),
                keep == |h: (Seq<char>, Seq<char>)| !is_content_type(h),
                headers.deep_view() == all.take(i as int).filter(keep),
            decreases req.headers.len() - i,
        {
            let header = &req.headers[i];
            let ghost before = headers.deep_view();
            proof {
                assert(all[i as int] == header.deep_view());
                assert(all.take(i + 1) == all.take(i as int).push(all[i as int]));
                all.take(i as int).lemma_filter_push(all[i as int], keep);
            }
            if !eq_ignore_ascii_case(header.name.as_str(), "Content-Type") {
                headers.push(Header::new(header.name.as_str(), header.value.as_str()));
                assert(headers.deep_view() == before.push(header.deep_view()));
            }
            i += 1;
        }
        assert(all.take(i as int) == all);
        let ghost kept = headers.deep_view();
        headers.push(Header::new("Content-Type", "message/http"));
        assert(headers.deep_view() == kept.push(("Content-Type"@, "message/http"@)));
        Response { status: Status::Okay, headers, body: Body::Empty }
    }

    /// Answers GET for the path of `req`, given what the caller found.
    pub fn handle_get(&self, req: &Request, found: Snapshot) -> (r: Response)
        ensures
            r@ == get_response(self@, req@.path, found@),
    {
        let path = resolve(self.hosted_directory.path.as_str(), &req.path, &found.links);
        if path.url_err {
            self.handle_invalid_url("<p>Percent-encoding decoded to invalid UTF-8.</p>")
        } else if path.symlink && !self.follow_symlinks {
            self.handle_get_nonexistant(req)
        } else {
            match found.target {
                Target::Missing => self.handle_get_nonexistant(req),
                Target::File(contents) => self.handle_get_file(&path, contents),
                Target::Directory(entries) => self.handle_get_dir(req, &entries),
            }
        }
    }

    /// Answers `req`, given what the caller found in the file system for it.
    /// Only GET and HEAD look at what was found.
    pub fn handle(&self, req: &Request, found: Snapshot) -> (r: Response)
        ensures
            r@ == response_to(self@, req@, found@),
    {
        match &req.method {
            Method::Options => self.handle_options(),
            Method::Get => self.handle_get(req, found),
            Method::Head => {
                let mut r = self.handle_get(req, found);
                r.body = Body::Empty;
                r
            },
            Method::Trace => self.handle_trace(req),
            Method::Other(_) => self.handle_bad_method(req),
        }
    }
}

/// GET for a file gives the file: where every segment can be decoded, no
/// symbolic link lies on the way unless links are followed, and the path
/// ends in a plain file, the answer is 200 and carries the file's bytes,
/// each of them and no other.
pub proof fn get_serves_file_bytes(
    config: ConfigView,
    segments: Seq<Seq<char>>,
    found: SnapshotView,
    contents: Seq<u8>,
)
    requires
        forall|i: int| 0 <= i < segments.len() ==> percent_decoded(#[trigger] segments[i]) is Some,
        config.follow_symlinks || forall|d: int| !link_at(found.links, d),
        found.target == TargetView::File(contents),
    ensures
        get_response(config, segments, found).status == Status::Okay,
        get_response(config, segments, found).body == BodyView::Bytes(contents),
{
    decodable_segments_walk_clean(config.root, segments, found.links, segments.len());
    if !config.follow_symlinks {
        walk_without_links(config.root, segments, found.links, segments.len());
    }
}

/// GET for a directory lists it: where every segment can be decoded, no
/// symbolic link lies on the way unless links are followed, and the path
/// ends in a directory, the answer is 200 and its page holds one list item
/// for each entry that is shown, in their order, and nothing for the others.
pub proof fn get_lists_directory(
    config: ConfigView,
    segments: Seq<Seq<char>>,
    found: SnapshotView,
    entries: Seq<DirEntryView>,
)
    requires
        forall|i: int| 0 <= i < segments.len() ==> percent_decoded(#[trigger] segments[i]) is Some,
        config.follow_symlinks || forall|d: int| !link_at(found.links, d),
        found.target == TargetView::Directory(entries),
    ensures
        get_response(config, segments, found) == dir_response(
            config.listing_template,
            url_path_of(segments),
            entries,
            config.follow_symlinks,
        ),
        get_response(config, segments, found).status == Status::Okay,
{
    decodable_segments_walk_clean(config.root, segments, found.links, segments.len());
    if !config.follow_symlinks {
        walk_without_links(config.root, segments, found.links, segments.len());
    }
}

/// GET for a path with a segment that cannot be decoded is refused with
/// 400, whatever the caller found.
pub proof fn get_refuses_undecodable_path(
    config: ConfigView,
    segments: Seq<Seq<char>>,
    found: SnapshotView,
    i: int,
)
    requires
        0 <= i < segments.len(),
        percent_decoded(segments[i]) is None,
    ensures
        get_response(config, segments, found) == invalid_url_response(
            config.error_template,
            decoding_failed(),
        ),
        get_response(config, segments, found).status == Status::BadRequest,
{
    if segments[i].len() == 0 {
        text_without_percent_decodes_to_itself(segments[i]);
    }
    undecodable_segment_marks_walk(config.root, segments, found.links, i, segments.len());
}

/// Where symbolic links are not followed, GET for a path that can be
/// decoded and has a symbolic link on it, at its end or before, is answered
/// with 404, whatever the path ends in.
pub proof fn get_hides_what_lies_behind_a_link(
    config: ConfigView,
    segments: Seq<Seq<char>>,
    found: SnapshotView,
    depth: int,
)
    requires
        !config.follow_symlinks,
        forall|i: int| 0 <= i < segments.len() ==> percent_decoded(#[trigger] segments[i]) is Some,
        1 <= depth <= resolved(config.root, segments, found.links).components.len(),
        link_at(found.links, depth),
    ensures
        get_response(config, segments, found) == nonexistant_response(
            config.error_template,
            url_path_of(segments),
        ),
        get_response(config, segments, found).status == Status::NotFound,
{
    decodable_segments_walk_clean(config.root, segments, found.links, segments.len());
    link_on_path_is_seen(config.root, segments, found.links, segments.len(), depth);
}

/// HEAD is answered as GET is, with the same status and headers and
/// without the body.
pub proof fn head_is_get_without_body(
    config: ConfigView,
    path: Seq<Seq<char>>,
    headers: Seq<(Seq<char>, Seq<char>)>,
    found: SnapshotView,
)
    ensures
        ({
            let head = response_to(
                config,
                RequestView { method: MethodView::Head, path, headers },
                found,
            );
            let get = response_to(
                config,
                RequestView { method: MethodView::Get, path, headers },
                found,
            );
            &&& head.status == get.status
            &&& head.headers == get.headers
            &&& head.body == BodyView::Empty
        }),
{
}

/// OPTIONS is answered with 200 and the four methods, whatever the path
/// and whatever the caller found.
pub proof fn options_ignores_the_path(
    config: ConfigView,
    path: Seq<Seq<char>>,
    headers: Seq<(Seq<char>, Seq<char>)>,
    found: SnapshotView,
)
    ensures
        ({
            let r = response_to(
                config,
                RequestView { method: MethodView::Options, path, headers },
                found,
            );
            &&& r.status == Status::Okay
            &&& r.headers == seq![("Allow"@, "OPTIONS, GET, HEAD, TRACE"@)]
            &&& r.body == BodyView::Empty
        }),
{
}

/// A method that is not served is refused with 501, and the detail of the
/// page names the method and the four that are served.
pub proof fn unserved_method_is_named(
    config: ConfigView,
    name: Seq<char>,
    path: Seq<Seq<char>>,
    headers: Seq<(Seq<char>, Seq<char>)>,
    found: SnapshotView,
)
    ensures
        ({
            let r = response_to(
                config,
                RequestView { method: MethodView::Other(name), path, headers },
                found,
            );
            &&& r.status == Status::NotImplemented
            &&& r.body == BodyView::Html(
                filled(
                    config.error_template,
                    seq![
                        "501 Not Implemented"@,
                        "This operation was not implemented."@,
                        bad_method_detail(name),
                    ],
                ),
            )
        }),
        contains_seq(bad_method_detail(name), name),
        contains_seq(bad_method_detail(name), supported_methods()),
{
    let detail = bad_method_detail(name);
    let before_name = "<p>Unsupported request method: "@;
    let before_methods = before_name + name + ".<br />Supported methods: "@;
    assert(detail.subrange(before_name.len() as int, (before_name.len() + name.len()) as int)
        == name);
    assert(occurs_at(detail, name, before_name.len() as int));
    assert(detail.subrange(
        before_methods.len() as int,
        (before_methods.len() + supported_methods().len()) as int,
    ) == supported_methods());
    assert(occurs_at(detail, supported_methods(), before_methods.len() as int));
}

/// What a listing links to can be requested: after a listing was served,
/// GET for the listed directory's path followed by the name of an entry
/// that was shown is answered with 200, with or without a slash after the
/// name, as long as the name holds no percent sign and the file system is
/// as it was. `again` stands for the segments that the link names the
/// directory by: they may differ from those of the first request, as long
/// as they lead to the same path.
pub proof fn listed_entry_can_be_requested(
    config: ConfigView,
    segments: Seq<Seq<char>>,
    found: SnapshotView,
    entries: Seq<DirEntryView>,
    k: int,
    again: Seq<Seq<char>>,
    later: SnapshotView,
)
    requires
        found.target == TargetView::Directory(entries),
        get_response(config, segments, found).status == Status::Okay,
        0 <= k < entries.len(),
        is_visible(entries[k], config.follow_symlinks),
        entries[k].name.len() > 0,
        forall|i: int| 0 <= i < entries[k].name.len() ==> entries[k].name[i] != '%',
        !resolved(config.root, again, later.links).url_err,
        resolved(config.root, again, later.links).components == resolved(
            config.root,
            segments,
            found.links,
        ).components,
        later.target !is Missing,
        forall|d: int|
            1 <= d <= resolved(config.root, segments, found.links).components.len() ==> link_at(
                later.links,
                d,
            ) == link_at(found.links, d),
        link_at(
            later.links,
            resolved(config.root, segments, found.links).components.len() as int + 1,
        ) == entries[k].is_symlink,
    ensures
        get_response(config, again.push(entries[k].name), later).status == Status::Okay,
        get_response(
            config,
            again.push(entries[k].name).push(Seq::empty()),
            later,
        ).status == Status::Okay,
        resolved(config.root, again.push(entries[k].name), later.links).components == resolved(
            config.root,
            segments,
            found.links,
        ).components.push(entries[k].name),
{
    let name = entries[k].name;
    let first = resolved(config.root, segments, found.links);
    let second = resolved(config.root, again, later.links);
    let next = again.push(name);
    text_without_percent_decodes_to_itself(name);
    walk_reads_its_segments_only(config.root, next, again, later.links, again.len());
    assert(next[again.len() as int] == name);
    if second.symlink {
        let d = seen_link_is_on_path(config.root, again, later.links, again.len());
        link_on_path_is_seen(config.root, segments, found.links, segments.len(), d);
    }
    let with_slash = next.push(Seq::empty());
    walk_reads_its_segments_only(config.root, with_slash, next, later.links, next.len());
    assert(with_slash[next.len() as int].len() == 0);
}

/// Whether the description of a failed attempt speaks of the port, as it
/// does where the port is taken.
pub open spec fn mentions_port(description: Seq<char>) -> bool {
    contains_seq(description, "port"@)
}

/// The error of a server that could not be started.
pub open spec fn start_failed(more: Option<Seq<char>>) -> ErrorView {
    ErrorView::Io { desc: "server"@, op: "start"@, more }
}

/// What the search over the ports from `from` up to, but not including,
/// `up_to` does next, after `attempts` were made on the first ports in
/// order. No port lies beyond the largest that sixteen bits can write.
pub open spec fn port_step(from: int, up_to: int, attempts: Seq<BindAttemptView>) -> PortStepView
    decreases attempts.len(),
{
    if from >= up_to || from > u16::MAX {
        PortStepView::Failed(start_failed(Some("no free ports"@)))
    } else if attempts.len() == 0 {
        PortStepView::Try(from as u16)
    } else {
        match attempts[0] {
            BindAttemptView::Bound => PortStepView::Listening(from as u16),
            BindAttemptView::Failed(description) => if mentions_port(description) {
                port_step(from + 1, up_to, attempts.skip(1))
            } else {
                PortStepView::Failed(start_failed(None))
            },
        }
    }
}

/// Ports that are taken are passed over, and the search stops at the first
/// free one: after `busy` attempts that failed with a description that
/// speaks of the port, the next port is tried, and once the server listens
/// on it the search is over, whatever `attempts` holds after that.
pub proof fn search_stops_at_first_free_port(
    from: int,
    up_to: int,
    attempts: Seq<BindAttemptView>,
    busy: nat,
)
    requires
        0 <= from,
        from + busy < up_to <= u16::MAX,
        busy <= attempts.len(),
        forall|i: int|
            0 <= i < busy ==> (#[trigger] attempts[i] matches BindAttemptView::Failed(description)
                && mentions_port(description)),
    ensures
        attempts.len() == busy ==> port_step(from, up_to, attempts) == PortStepView::Try(
            (from + busy) as u16,
        ),
        attempts.len() > busy && attempts[busy as int] is Bound ==> port_step(
            from,
            up_to,
            attempts,
        ) == PortStepView::Listening((from + busy) as u16),
    decreases busy,
{
    if busy > 0 {
        let rest = attempts.skip(1);
        assert forall|i: int| 0 <= i < busy - 1 implies (#[trigger] rest[i] matches
            BindAttemptView::Failed(description) && mentions_port(description)) by {
            assert(rest[i] == attempts[i + 1]);
        }
        search_stops_at_first_free_port(from + 1, up_to, rest, (busy - 1) as nat);
        if attempts.len() > busy {
            assert(rest[busy - 1] == attempts[busy as int]);
        }
    }
}

/// The ports are tried in ascending order, each once: the port to try next
/// is the one that as many ports lie before as attempts were made, and it
/// lies in the range.
pub proof fn next_port_follows_the_attempts(
    from: int,
    up_to: int,
    attempts: Seq<BindAttemptView>,
    port: u16,
)
    requires
        0 <= from,
        port_step(from, up_to, attempts) == PortStepView::Try(port),
    ensures
        port == from + attempts.len(),
        from <= port < up_to,
    decreases attempts.len(),
{
    if from < up_to && from <= u16::MAX && attempts.len() > 0 {
        next_port_follows_the_attempts(from + 1, up_to, attempts.skip(1), port);
    }
}

/// Says what the search for a free port among `from..up_to` does next.
///
/// `attempts` holds what came of the attempts made so far, on `from`, on the
/// port after it, and so on. The ports are tried in ascending order, each
/// once. The search ends with the first port that the server listens on, or
/// with the first failure that does not speak of the port, or when no port
/// is left.
pub fn try_ports(from: u16, up_to: u16, attempts: &Vec<BindAttempt>) -> (r: PortStep)
    ensures
        r@ == port_step(from as int, up_to as int, attempts.deep_view()),
{
    let mut port: u16 = from;
    let mut i: usize = 0;
    let ghost all = attempts.deep_view();
    assert(all.skip(0) == all);
    loop
        invariant
            i <= attempts.len(),
            all == attempts.deep_view(),
            port_step(from as int, up_to as int, all) == port_step(
                port as int,
                up_to as int,
                all.skip(i as int),
            ),
        decreases attempts.len() - i,
    {
        if port >= up_to {
            return PortStep::Failed(
                Error::Io { desc: "server", op: "start", more: Some("no free ports") },
            );
        }
        if i >= attempts.len() {
            return PortStep::Try(port);
        }
        assert(all.skip(i as int)[0] == attempts[i as int].deep_view());
        match &attempts[i] {
            BindAttempt::Bound => {
                return PortStep::Listening(port);
            },
            BindAttempt::Failed(description) => {
                if !contains(description.as_str(), "port") {
                    return PortStep::Failed(
                        Error::Io { desc: "server", op: "start", more: None },
                    );
                }
            },
        }
        assert(all.skip(i as int).skip(1) == all.skip(i + 1));
        port += 1;
        i += 1;
    }
}

} // verus!
