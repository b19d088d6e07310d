use vstd::prelude::*;

pub mod json;
pub mod session;
pub mod request;
pub mod listing;
pub mod comment;
pub mod stream;
pub mod sort;

use crate::json::JsonValue;
use crate::session::{Session, SessionState, Credentials, AppKind, GrantOutcome};
use crate::request::{HttpEvent, run_request, spec_run_request};
use crate::listing::Listing;
use crate::comment::{
    Comment, CommentModel, ListingModel, comment_model, listing_model, spec_parse_listing,
    parse_listing, spec_splice, splice_children, lemma_comments_model_index,
};
use crate::stream::CommentStream;

verus! {

/// The error kinds a request can surface.
#[derive(Clone, Copy, Debug, PartialEq, Eq, Structural)]
pub enum ApiError {
    BadRequest,
    Forbidden,
    NotFound,
    BadResponse,
    Transient,
}

/// The client identification line every request carries:
/// `<app-name>/<version> by <author>`.
pub open spec fn spec_user_agent(name: Seq<char>, version: Seq<char>, author: Seq<char>) -> Seq<
    char,
> {
    name + "/"@ + version + " by "@ + author
}

/// Relies on format!: writes the three parts into the identification line
/// `<app-name>/<version> by <author>`.
#[verifier::external_body]
fn build_user_agent(name: &str, version: &str, author: &str) -> (r: String)
    ensures
        r@ == spec_user_agent(name@, version@, author@),
{
    format!("{}/{} by {}", name, version, author)
}

/// The result of fetching a post's comment page: the post section is
/// discarded and the listing in the second section is materialized.
pub open spec fn spec_comment_tree(e: HttpEvent) -> Result<ListingModel, ApiError> {
    match spec_run_request(e) {
        Ok(v) => match v {
            JsonValue::Arr(items) => if items@.len() >= 2 {
                match spec_parse_listing(items@[1]) {
                    Some(lm) => Ok(lm),
                    None => Err(ApiError::BadResponse),
                }
            } else {
                Err(ApiError::BadResponse)
            },
            _ => Err(ApiError::BadResponse),
        },
        Err(err) => Err(err),
    }
}

/// The result of a batch child fetch: the response materializes as a
/// comment listing, whose entries replace the stub.
pub open spec fn spec_more_children(e: HttpEvent) -> Result<Seq<CommentModel>, ApiError> {
    match spec_run_request(e) {
        Ok(v) => match spec_parse_listing(v) {
            Some(lm) => Ok(lm.children),
            None => Err(ApiError::BadResponse),
        },
        Err(err) => Err(err),
    }
}

/// One connection to the platform: the client identification line and the
/// session that authenticates requests.
pub struct App {
    pub agent: String,
    pub session: Session,
}

impl App {
    /// A fresh, anonymous connection identifying itself as
    /// `<appname>/<appversion> by <appauthor>`.
    pub fn new(appname: &str, appversion: &str, appauthor: &str) -> (r: Result<App, ApiError>)
        ensures
            r matches Ok(app) && app.agent@ == spec_user_agent(appname@, appversion@, appauthor@)
                && app.session == (Session {
                creds: None::<Credentials>,
                state: SessionState::Anonymous,
            }),
    {
        Ok(App { agent: build_user_agent(appname, appversion, appauthor), session: Session::new() })
    }

    /// Records the outcome of the grant exchange run for the given identity
    /// at instant `now`: on a grant the session holds a live token; on a
    /// rejection it fails and `Forbidden` is returned.
    pub fn authorize(
        &mut self,
        username: String,
        password: String,
        app_kind: AppKind,
        outcome: GrantOutcome,
        now: u64,
    ) -> (r: Result<(), ApiError>)
        requires
            old(self).session.can_authorize(),
        ensures
            final(self).agent == old(self).agent,
            final(self).session == old(self).session.spec_authorize(
                (Credentials { username, password, app_kind }),
                outcome,
                now,
            ).0,
            r == old(self).session.spec_authorize(
                (Credentials { username, password, app_kind }),
                outcome,
                now,
            ).1,
    {
        self.session.authorize(Credentials { username, password, app_kind }, outcome, now)
    }

    /// A fresh deduplicated comment stream over `sub`, or over the whole
    /// site where `sub` names the all-of-the-site feed.
    pub fn get_comments(&self, sub: &str) -> (s: CommentStream)
        ensures
            s.subreddit@ == sub@,
            s.seen@ == Seq::<String>::empty(),
            s.backfill == crate::listing::Paginator::spec_new(),
            s.tailing == false,
    {
        CommentStream::new(sub.to_owned())
    }

    /// Materializes the comment tree of a post from the fetched comment
    /// page: the post section is discarded and only the listing in the
    /// second section is returned.
    pub fn get_comment_tree(&self, response: &HttpEvent) -> (r: Result<Listing<Comment>, ApiError>)
        ensures
            match r {
                Ok(l) => spec_comment_tree(*response) == Ok::<ListingModel, ApiError>(
                    listing_model(l),
                ),
                Err(err) => spec_comment_tree(*response) == Err::<ListingModel, ApiError>(err),
            },
    {
        match run_request(response) {
            Ok(v) => match v {
                JsonValue::Arr(items) => if items.len() >= 2 {
                    match parse_listing(&items[1]) {
                        Some(l) => Ok(l),
                        None => Err(ApiError::BadResponse),
                    }
                } else {
                    Err(ApiError::BadResponse)
                },
                _ => Err(ApiError::BadResponse),
            },
            Err(err) => Err(err),
        }
    }

    /// Resolves the stub at `index` from the batch fetch's outcome: on
    /// success the materialized children stand exactly where the stub
    /// stood, between the untouched siblings; on any failure the error is
    /// surfaced and the tree is left untouched.
    pub fn more_children(
        &self,
        tree: &mut Listing<Comment>,
        index: usize,
        response: &HttpEvent,
    ) -> (r: Result<(), ApiError>)
        requires
            index < old(tree).children@.len(),
            old(tree).children@[index as int] is NotLoaded,
        ensures
            match r {
                Ok(_) => spec_more_children(*response) matches Ok(ms) && ({
                    let oldc = old(tree).children@;
                    let newc = final(tree).children@;
                    &&& newc.len() == oldc.len() - 1 + ms.len()
                    &&& (forall|j: int| 0 <= j < index ==> newc[j] == oldc[j])
                    &&& (forall|j: int|
                        0 <= j < ms.len() ==> comment_model(newc[index + j]) == ms[j])
                    &&& (forall|j: int|
                        index + ms.len() <= j < newc.len() ==> newc[j] == oldc[
                            j + 1 - ms.len()])
                    &&& final(tree).before == old(tree).before
                    &&& final(tree).after == old(tree).after
                }),
                Err(err) => spec_more_children(*response) == Err::<Seq<CommentModel>, ApiError>(
                    err,
                ) && *final(tree) == *old(tree),
            },
    {
        match run_request(response) {
            Ok(v) => match parse_listing(&v) {
                Some(l) => {
                    let resolved = l.children;
                    proof {
                        lemma_comments_model_index(resolved@, 0);
                    }
                    splice_children(&mut tree.children, index, resolved);
                    Ok(())
                },
                None => Err(ApiError::BadResponse),
            },
            Err(err) => Err(err),
        }
    }
}

} // verus!
