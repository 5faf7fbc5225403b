//! What is asked of Lark's server, and what its replies say.

use vstd::prelude::*;

use crate::config::{OAuthConfig, OAuthModel};
use crate::document::{compact_json, json_compact, json_document, read_json};
use crate::laws::addresses_are_the_email_fields;
use crate::text::{
    fold_list, folded, folded_list, maybe_text, present, push_pair, text_pairs, texts, trimmed,
};
use crate::tree::{
    field, is_record, maybe_tree, member, optional_text, read_text, record, Tree, TreeView,
};

verus! {

/// The account that signed in, as Lark describes it.
pub struct UserData {
    pub name: Option<String>,
    pub email: Option<String>,
    pub enterprise_email: Option<String>,
    pub open_id: Option<String>,
}

/// The mathematical form of a [`UserData`].
#[verifier::ext_equal]
pub struct UserModel {
    pub name: Option<Seq<char>>,
    pub email: Option<Seq<char>>,
    pub enterprise_email: Option<Seq<char>>,
    pub open_id: Option<Seq<char>>,
}

impl View for UserData {
    type V = UserModel;

    open spec fn view(&self) -> UserModel {
        UserModel {
            name: maybe_text(self.name),
            email: maybe_text(self.email),
            enterprise_email: maybe_text(self.enterprise_email),
            open_id: maybe_text(self.open_id),
        }
    }
}

impl Default for UserData {
    fn default() -> (r: UserData)
        ensures
            r@ == (UserModel { name: None, email: None, enterprise_email: None, open_id: None }),
    {
        UserData { name: None, email: None, enterprise_email: None, open_id: None }
    }
}

/// The addresses of an account, the enterprise address first, as they are
/// compared with the allowlist.
pub open spec fn addresses(u: UserModel) -> Seq<Seq<char>> {
    folded_list(present(u.enterprise_email) + present(u.email))
}

/// Whether an account has an address that is not blank.
pub open spec fn has_address(address: Option<Seq<char>>) -> bool {
    address matches Some(e) && trimmed(e).len() > 0
}

impl UserData {
    /// All email-bearing fields, trimmed and in lower case, without empty ones:
    /// matched against the allowlist.
    pub fn emails(&self) -> (r: Vec<String>)
        ensures
            texts(r@) == addresses(self@),
            has_address(self@.enterprise_email) ==> texts(r@).contains(
                folded(self@.enterprise_email->0),
            ),
            has_address(self@.email) ==> texts(r@).contains(folded(self@.email->0)),
            r@.len() == (if has_address(self@.enterprise_email) {
                1int
            } else {
                0int
            }) + (if has_address(self@.email) {
                1int
            } else {
                0int
            }),
    {
        let mut given: Vec<String> = Vec::new();
        if let Some(e) = &self.enterprise_email {
            given.push(e.clone());
        }
        assert(texts(given@) =~= present(self@.enterprise_email));
        if let Some(e) = &self.email {
            given.push(e.clone());
        }
        assert(texts(given@) =~= present(self@.enterprise_email) + present(self@.email));
        let r = fold_list(&given);
        proof {
            addresses_are_the_email_fields(self@);
            let both = addresses(self@);
            if has_address(self@.enterprise_email) {
                assert(both[0] == folded(self@.enterprise_email->0));
            }
            if has_address(self@.email) {
                assert(both[both.len() - 1] == folded(self@.email->0));
            }
            assert(texts(r@).len() == r@.len());
        }
        r
    }
}

// ---- token exchange ---------------------------------------------------------

/// A POST with a JSON object of texts as its body.
pub struct TokenRequest {
    pub url: String,
    pub fields: Vec<(String, String)>,
}

/// The mathematical form of a [`TokenRequest`].
#[verifier::ext_equal]
pub struct TokenRequestModel {
    pub url: Seq<char>,
    pub fields: Seq<(Seq<char>, Seq<char>)>,
}

impl View for TokenRequest {
    type V = TokenRequestModel;

    open spec fn view(&self) -> TokenRequestModel {
        TokenRequestModel { url: self.url@, fields: text_pairs(self.fields@) }
    }
}

/// The request that trades an authorization code for a token.
pub open spec fn token_request(
    cfg: OAuthModel,
    code: Seq<char>,
    verifier: Seq<char>,
    redirect_uri: Seq<char>,
) -> TokenRequestModel {
    TokenRequestModel {
        url: cfg.open_base + "/open-apis/authen/v2/oauth/token"@,
        fields: seq![
            ("grant_type"@, "authorization_code"@),
            ("client_id"@, cfg.app_id),
            ("client_secret"@, cfg.app_secret),
            ("code"@, code),
            ("redirect_uri"@, redirect_uri),
            ("code_verifier"@, verifier),
        ],
    }
}

/// The request that trades an authorization code for a token.
pub fn exchange_code(
    cfg: &OAuthConfig,
    code: &str,
    verifier: &str,
    redirect_uri: &str,
) -> (r: TokenRequest)
    ensures
        r@ == token_request(cfg@, code@, verifier@, redirect_uri@),
{
    let mut fields: Vec<(String, String)> = Vec::new();
    assert(text_pairs(fields@) =~= Seq::empty());
    push_pair(&mut fields, "grant_type", "authorization_code");
    push_pair(&mut fields, "client_id", cfg.app_id.as_str());
    push_pair(&mut fields, "client_secret", cfg.app_secret.as_str());
    push_pair(&mut fields, "code", code);
    push_pair(&mut fields, "redirect_uri", redirect_uri);
    push_pair(&mut fields, "code_verifier", verifier);
    let mut url = cfg.open_base.clone();
    url.append("/open-apis/authen/v2/oauth/token");
    TokenRequest { url, fields }
}

/// Why a token reply gives no token.
#[derive(Debug, PartialEq, Eq, Structural, Clone, Copy)]
pub enum TokenError {
    /// The body is not JSON.
    NotJson,
    /// The body has no text under `access_token`.
    NoAccessToken,
}

/// The token in a reply.
pub open spec fn access_token(reply: TreeView) -> Option<Seq<char>> {
    match field(reply, "access_token"@) {
        Some(TreeView::Text(s)) => Some(s),
        _ => None,
    }
}

/// The token in the body of a reply.
pub open spec fn token_in(body: Seq<u8>) -> Result<Seq<char>, TokenError> {
    match json_document(body) {
        None => Err(TokenError::NotJson),
        Some(t) => match access_token(t) {
            None => Err(TokenError::NoAccessToken),
            Some(s) => Ok(s),
        },
    }
}

/// The token in a reply: the text under `access_token`.
pub fn token_of_reply(reply: &Tree) -> (r: Option<String>)
    ensures
        maybe_text(r) == access_token(reply@),
{
    match reply.field("access_token") {
        Some(Tree::Text(s)) => Some(s.clone()),
        _ => None,
    }
}

/// The token in the body of a reply.
pub fn read_token(body: &[u8]) -> (r: Result<String, TokenError>)
    ensures
        match r {
            Ok(s) => token_in(body@) == Ok::<Seq<char>, TokenError>(s@),
            Err(e) => token_in(body@) == Err::<Seq<char>, TokenError>(e),
        },
{
    match read_json(body) {
        None => Err(TokenError::NotJson),
        Some(t) => match token_of_reply(&t) {
            None => Err(TokenError::NoAccessToken),
            Some(s) => Ok(s),
        },
    }
}

/// What a token reply without a token is reported as.
pub open spec fn token_failure_text(status: Seq<char>, body: Seq<char>) -> Seq<char> {
    "status="@ + status + " body="@ + body
}

/// What a token reply without a token is reported as.
pub fn token_failure(status: &str, body: &str) -> (r: String)
    ensures
        r@ == "status="@ + status@ + " body="@ + body@,
{
    let mut text = "status=".to_owned();
    text.append(status);
    text.append(" body=");
    text.append(body);
    text
}

/// The outcome of a token exchange whose reply has this status and body. A body
/// that is not JSON is reported as `not_json`.
pub open spec fn exchange_outcome(
    status: Seq<char>,
    body: Seq<u8>,
    not_json: Seq<char>,
) -> Result<Seq<char>, Seq<char>> {
    match token_in(body) {
        Ok(token) => Ok(token),
        Err(TokenError::NotJson) => Err(not_json),
        Err(TokenError::NoAccessToken) => Err(token_failure_text(status, json_compact(body)->0)),
    }
}

/// What a token, or the report of why there is none, says.
pub open spec fn text_result(r: Result<String, String>) -> Result<Seq<char>, Seq<char>> {
    match r {
        Ok(s) => Ok(s@),
        Err(e) => Err(e@),
    }
}

/// The outcome of a token exchange: the token in the reply, whatever its status, or
/// a report of why there is none.
pub fn exchange_result(status: &str, body: &[u8], not_json: &str) -> (r: Result<String, String>)
    ensures
        text_result(r) == exchange_outcome(status@, body@, not_json@),
{
    match read_token(body) {
        Ok(token) => Ok(token),
        Err(TokenError::NotJson) => Err(not_json.to_owned()),
        Err(TokenError::NoAccessToken) => match compact_json(body) {
            Some(text) => Err(token_failure(status, text.as_str())),
            None => Err(not_json.to_owned()),
        },
    }
}

// ---- user info --------------------------------------------------------------

/// A GET with a bearer token.
pub struct UserRequest {
    pub url: String,
    pub bearer: String,
}

/// The mathematical form of a [`UserRequest`].
#[verifier::ext_equal]
pub struct UserRequestModel {
    pub url: Seq<char>,
    pub bearer: Seq<char>,
}

impl View for UserRequest {
    type V = UserRequestModel;

    open spec fn view(&self) -> UserRequestModel {
        UserRequestModel { url: self.url@, bearer: self.bearer@ }
    }
}

/// The request for the account behind a token.
pub open spec fn user_request(cfg: OAuthModel, token: Seq<char>) -> UserRequestModel {
    UserRequestModel { url: cfg.open_base + "/open-apis/authen/v1/user_info"@, bearer: token }
}

/// The request for the account behind a token.
pub fn fetch_user(cfg: &OAuthConfig, token: &str) -> (r: UserRequest)
    ensures
        r@ == user_request(cfg@, token@),
{
    let mut url = cfg.open_base.clone();
    url.append("/open-apis/authen/v1/user_info");
    UserRequest { url, bearer: token.to_owned() }
}

/// Why a user_info reply describes no account.
#[derive(Debug, PartialEq, Eq, Structural, Clone, Copy)]
pub enum UserError {
    /// The body is not JSON.
    NotJson,
    /// The body, or the account in it, has another shape than expected.
    Unreadable,
    /// The body holds no account.
    NoUserData,
}

/// Whether a JSON value can spell a record with this many members: by name as an
/// object, by position as an array that is not longer.
pub open spec fn json_record(t: TreeView, members: int) -> bool {
    record(t) && (t matches TreeView::List(items) ==> items.len() <= members)
}

/// An account, each of whose members may be left out or null.
pub open spec fn user_data(t: TreeView) -> Option<UserModel> {
    let name = optional_text(member(t, "name"@, 0));
    let email = optional_text(member(t, "email"@, 1));
    let enterprise_email = optional_text(member(t, "enterprise_email"@, 2));
    let open_id = optional_text(member(t, "open_id"@, 3));
    if json_record(t, 4) && name is Some && email is Some && enterprise_email is Some && open_id
        is Some {
        Some(
            UserModel {
                name: name->0,
                email: email->0,
                enterprise_email: enterprise_email->0,
                open_id: open_id->0,
            },
        )
    } else {
        None
    }
}

/// The account in a reply, which stands under `data`.
pub open spec fn user_info(reply: TreeView) -> Result<UserModel, UserError> {
    if !json_record(reply, 1) {
        Err(UserError::Unreadable)
    } else {
        match member(reply, "data"@, 0) {
            None => Err(UserError::NoUserData),
            Some(TreeView::Null) => Err(UserError::NoUserData),
            Some(t) => match user_data(t) {
                None => Err(UserError::Unreadable),
                Some(u) => Ok(u),
            },
        }
    }
}

/// The account in the body of a reply.
pub open spec fn user_in(body: Seq<u8>) -> Result<UserModel, UserError> {
    match json_document(body) {
        None => Err(UserError::NotJson),
        Some(t) => user_info(t),
    }
}

/// What a result of reading an account says.
pub open spec fn user_result(r: Result<UserData, UserError>) -> Result<UserModel, UserError> {
    match r {
        Ok(u) => Ok(u@),
        Err(e) => Err(e),
    }
}

fn is_json_record(t: &Tree, members: usize) -> (r: bool)
    ensures
        r == json_record(t@, members as int),
{
    match t {
        Tree::List(items) => items.len() <= members,
        _ => is_record(t),
    }
}

impl UserData {
    /// The account that a value spells.
    pub fn read(t: &Tree) -> (r: Option<UserData>)
        ensures
            match r {
                Some(u) => user_data(t@) == Some(u@),
                None => user_data(t@) is None,
            },
    {
        if !is_json_record(t, 4) {
            return None;
        }
        let name = read_text(t.member("name", 0))?;
        let email = read_text(t.member("email", 1))?;
        let enterprise_email = read_text(t.member("enterprise_email", 2))?;
        let open_id = read_text(t.member("open_id", 3))?;
        Some(UserData { name, email, enterprise_email, open_id })
    }
}

/// The account in a reply.
pub fn user_of_reply(reply: &Tree) -> (r: Result<UserData, UserError>)
    ensures
        user_result(r) == user_info(reply@),
{
    if !is_json_record(reply, 1) {
        return Err(UserError::Unreadable);
    }
    match reply.member("data", 0) {
        None => Err(UserError::NoUserData),
        Some(Tree::Null) => Err(UserError::NoUserData),
        Some(t) => match UserData::read(t) {
            None => Err(UserError::Unreadable),
            Some(u) => Ok(u),
        },
    }
}

/// The account in the body of a reply.
pub fn read_user(body: &[u8]) -> (r: Result<UserData, UserError>)
    ensures
        user_result(r) == user_in(body@),
{
    match read_json(body) {
        None => Err(UserError::NotJson),
        Some(t) => user_of_reply(&t),
    }
}

/// What a user_info reply without an account is reported as.
pub open spec fn user_failure_text(status: Seq<char>) -> Seq<char> {
    "no user data (status="@ + status + ")"@
}

/// What a user_info reply without an account is reported as.
pub fn user_failure(status: &str) -> (r: String)
    ensures
        r@ == "no user data (status="@ + status@ + ")"@,
{
    let mut text = "no user data (status=".to_owned();
    text.append(status);
    text.append(")");
    text
}

/// The outcome of a user_info request whose reply has this status and body. A body
/// that is not JSON is reported as `not_json`, one of another shape as `unreadable`.
pub open spec fn fetch_outcome(
    status: Seq<char>,
    body: Seq<u8>,
    not_json: Seq<char>,
    unreadable: Seq<char>,
) -> Result<UserModel, Seq<char>> {
    match user_in(body) {
        Ok(user) => Ok(user),
        Err(UserError::NotJson) => Err(not_json),
        Err(UserError::Unreadable) => Err(unreadable),
        Err(UserError::NoUserData) => Err(user_failure_text(status)),
    }
}

/// The outcome of a user_info request: the account in the reply, whatever its
/// status, or a report of why there is none.
pub fn fetch_result(status: &str, body: &[u8], not_json: &str, unreadable: &str) -> (r: Result<
    UserData,
    String,
>)
    ensures
        match r {
            Ok(user) => fetch_outcome(status@, body@, not_json@, unreadable@) == Ok::<
                UserModel,
                Seq<char>,
            >(user@),
            Err(e) => fetch_outcome(status@, body@, not_json@, unreadable@) == Err::<
                UserModel,
                Seq<char>,
            >(e@),
        },
{
    match read_user(body) {
        Ok(user) => Ok(user),
        Err(UserError::NotJson) => Err(not_json.to_owned()),
        Err(UserError::Unreadable) => Err(unreadable.to_owned()),
        Err(UserError::NoUserData) => Err(user_failure(status)),
    }
}

} // verus!
