//! The data of the login handshake: the server-issued challenge, the
//! session credential extracted from response cookies, and the outcome
//! of the credential POST.

use vstd::prelude::*;

use crate::errors::{AuthError, Field, ParseError};
use crate::json::{
    json_of, parse_json, spec_as_bool, spec_as_text, spec_as_uint, spec_get, Json,
};
use crate::text::{parse_u32_dec, spec_parse_u32, str_eq};

verus! {

/// The server-issued state needed to begin authentication: the password
/// salt, plus informational flags that are parsed but drive no control
/// flow here.
#[derive(Debug, Clone, PartialEq)]
pub struct LoginChallenge {
    pub password_salt: String,
    pub do_setup_wizard: bool,
    pub require_password: bool,
    pub is_wireless: bool,
    pub error: u8,
    pub max_users: u8,
    pub deny_state: u8,
    pub deny_timeout: u8,
    pub mesh_network_enabled_status: bool,
    pub mesh_user_enabled_config: bool,
}

/// The mathematical content of a [`LoginChallenge`].
pub struct ChallengeModel {
    pub password_salt: Seq<char>,
    pub do_setup_wizard: bool,
    pub require_password: bool,
    pub is_wireless: bool,
    pub error: u8,
    pub max_users: u8,
    pub deny_state: u8,
    pub deny_timeout: u8,
    pub mesh_network_enabled_status: bool,
    pub mesh_user_enabled_config: bool,
}

impl View for LoginChallenge {
    type V = ChallengeModel;

    open spec fn view(&self) -> ChallengeModel {
        ChallengeModel {
            password_salt: self.password_salt@,
            do_setup_wizard: self.do_setup_wizard,
            require_password: self.require_password,
            is_wireless: self.is_wireless,
            error: self.error,
            max_users: self.max_users,
            deny_state: self.deny_state,
            deny_timeout: self.deny_timeout,
            mesh_network_enabled_status: self.mesh_network_enabled_status,
            mesh_user_enabled_config: self.mesh_user_enabled_config,
        }
    }
}

/// The result of a successful login: the anti-forgery token and the
/// numeric session identifier, both carried on every later request.
#[derive(Debug, Clone, PartialEq)]
pub struct SessionCredential {
    pub xsrf_token: String,
    pub session_id: u32,
}

/// The mathematical content of a [`SessionCredential`].
pub struct CredentialModel {
    pub xsrf_token: Seq<char>,
    pub session_id: u32,
}

impl View for SessionCredential {
    type V = CredentialModel;

    open spec fn view(&self) -> CredentialModel {
        CredentialModel { xsrf_token: self.xsrf_token@, session_id: self.session_id }
    }
}

/// A required field of a document: `Missing` when absent.
pub open spec fn spec_req_field(doc: Json, key: Seq<char>, f: Field) -> Result<Json, ParseError> {
    match spec_get(doc, key) {
        Some(v) => Ok(v),
        None => Err(ParseError::Missing(f)),
    }
}

/// A required boolean field.
pub open spec fn spec_bool_field(doc: Json, key: Seq<char>, f: Field) -> Result<
    bool,
    ParseError,
> {
    match spec_req_field(doc, key, f) {
        Ok(v) => match spec_as_bool(v) {
            Some(b) => Ok(b),
            None => Err(ParseError::Invalid(f)),
        },
        Err(e) => Err(e),
    }
}

/// A required numeric field that must fit in a `u8`.
pub open spec fn spec_u8_field(doc: Json, key: Seq<char>, f: Field) -> Result<u8, ParseError> {
    match spec_req_field(doc, key, f) {
        Ok(v) => match spec_as_uint(v) {
            Some(n) => if n <= 255 {
                Ok(n as u8)
            } else {
                Err(ParseError::Invalid(f))
            },
            None => Err(ParseError::Invalid(f)),
        },
        Err(e) => Err(e),
    }
}

/// A required string field.
pub open spec fn spec_text_field(doc: Json, key: Seq<char>, f: Field) -> Result<
    Seq<char>,
    ParseError,
> {
    match spec_req_field(doc, key, f) {
        Ok(v) => match spec_as_text(v) {
            Some(s) => Ok(s),
            None => Err(ParseError::Invalid(f)),
        },
        Err(e) => Err(e),
    }
}

fn bool_field(doc: &Json, key: &str, f: Field) -> (r: Result<bool, ParseError>)
    ensures
        r == spec_bool_field(*doc, key@, f),
{
    match doc.field(key) {
        Some(v) => match v.as_bool() {
            Some(b) => Ok(b),
            None => Err(ParseError::Invalid(f)),
        },
        None => Err(ParseError::Missing(f)),
    }
}

fn u8_field(doc: &Json, key: &str, f: Field) -> (r: Result<u8, ParseError>)
    ensures
        r == spec_u8_field(*doc, key@, f),
{
    match doc.field(key) {
        Some(v) => match v.as_uint() {
            Some(n) => if n <= 255 {
                Ok(n as u8)
            } else {
                Err(ParseError::Invalid(f))
            },
            None => Err(ParseError::Invalid(f)),
        },
        None => Err(ParseError::Missing(f)),
    }
}

fn text_field(doc: &Json, key: &str, f: Field) -> (r: Result<String, ParseError>)
    ensures
        match r {
            Ok(s) => spec_text_field(*doc, key@, f) == Ok::<Seq<char>, ParseError>(s@),
            Err(e) => spec_text_field(*doc, key@, f) == Err::<Seq<char>, ParseError>(e),
        },
{
    match doc.field(key) {
        Some(v) => match v.text() {
            Some(s) => Ok(s.clone()),
            None => Err(ParseError::Invalid(f)),
        },
        None => Err(ParseError::Missing(f)),
    }
}

/// What the challenge document must hold: all ten fields, each of its
/// required shape, checked in declaration order.
pub open spec fn spec_challenge(doc: Json) -> Result<ChallengeModel, ParseError> {
    match spec_text_field(doc, "passwordSalt"@, Field::PasswordSalt) {
        Err(e) => Err(e),
        Ok(password_salt) => match spec_bool_field(doc, "doSetupWizard"@, Field::DoSetupWizard) {
            Err(e) => Err(e),
            Ok(do_setup_wizard) => match spec_bool_field(
                doc,
                "requirePassword"@,
                Field::RequirePassword,
            ) {
                Err(e) => Err(e),
                Ok(require_password) => match spec_bool_field(
                    doc,
                    "isWireless"@,
                    Field::IsWireless,
                ) {
                    Err(e) => Err(e),
                    Ok(is_wireless) => match spec_u8_field(doc, "error"@, Field::ErrorCode) {
                        Err(e) => Err(e),
                        Ok(error) => match spec_u8_field(doc, "maxUsers"@, Field::MaxUsers) {
                            Err(e) => Err(e),
                            Ok(max_users) => match spec_u8_field(
                                doc,
                                "denyState"@,
                                Field::DenyState,
                            ) {
                                Err(e) => Err(e),
                                Ok(deny_state) => match spec_u8_field(
                                    doc,
                                    "denyTimeout"@,
                                    Field::DenyTimeout,
                                ) {
                                    Err(e) => Err(e),
                                    Ok(deny_timeout) => match spec_bool_field(
                                        doc,
                                        "meshNetworkEnabledStatus"@,
                                        Field::MeshNetworkEnabledStatus,
                                    ) {
                                        Err(e) => Err(e),
                                        Ok(mesh_network_enabled_status) => match spec_bool_field(
                                            doc,
                                            "meshUserEnabledConfig"@,
                                            Field::MeshUserEnabledConfig,
                                        ) {
                                            Err(e) => Err(e),
                                            Ok(mesh_user_enabled_config) => Ok(
                                                ChallengeModel {
                                                    password_salt,
                                                    do_setup_wizard,
                                                    require_password,
                                                    is_wireless,
                                                    error,
                                                    max_users,
                                                    deny_state,
                                                    deny_timeout,
                                                    mesh_network_enabled_status,
                                                    mesh_user_enabled_config,
                                                },
                                            ),
                                        },
                                    },
                                },
                            },
                        },
                    },
                },
            },
        },
    }
}

/// Builds a challenge from an already-parsed document, demanding every
/// field the server sends.
pub fn challenge_from_json(doc: &Json) -> (r: Result<LoginChallenge, ParseError>)
    ensures
        match r {
            Ok(c) => spec_challenge(*doc) == Ok::<ChallengeModel, ParseError>(c@),
            Err(e) => spec_challenge(*doc) == Err::<ChallengeModel, ParseError>(e),
        },
{
    let password_salt = match text_field(doc, "passwordSalt", Field::PasswordSalt) {
        Ok(v) => v,
        Err(e) => return Err(e),
    };
    let do_setup_wizard = match bool_field(doc, "doSetupWizard", Field::DoSetupWizard) {
        Ok(v) => v,
        Err(e) => return Err(e),
    };
    let require_password = match bool_field(doc, "requirePassword", Field::RequirePassword) {
        Ok(v) => v,
        Err(e) => return Err(e),
    };
    let is_wireless = match bool_field(doc, "isWireless", Field::IsWireless) {
        Ok(v) => v,
        Err(e) => return Err(e),
    };
    let error = match u8_field(doc, "error", Field::ErrorCode) {
        Ok(v) => v,
        Err(e) => return Err(e),
    };
    let max_users = match u8_field(doc, "maxUsers", Field::MaxUsers) {
        Ok(v) => v,
        Err(e) => return Err(e),
    };
    let deny_state = match u8_field(doc, "denyState", Field::DenyState) {
        Ok(v) => v,
        Err(e) => return Err(e),
    };
    let deny_timeout = match u8_field(doc, "denyTimeout", Field::DenyTimeout) {
        Ok(v) => v,
        Err(e) => return Err(e),
    };
    let mesh_network_enabled_status = match bool_field(
        doc,
        "meshNetworkEnabledStatus",
        Field::MeshNetworkEnabledStatus,
    ) {
        Ok(v) => v,
        Err(e) => return Err(e),
    };
    let mesh_user_enabled_config = match bool_field(
        doc,
        "meshUserEnabledConfig",
        Field::MeshUserEnabledConfig,
    ) {
        Ok(v) => v,
        Err(e) => return Err(e),
    };
    Ok(LoginChallenge {
        password_salt,
        do_setup_wizard,
        require_password,
        is_wireless,
        error,
        max_users,
        deny_state,
        deny_timeout,
        mesh_network_enabled_status,
        mesh_user_enabled_config,
    })
}

/// What parsing a challenge body yields: `Syntax` where the text is not
/// JSON, else the challenge fields.
pub open spec fn spec_login_challenge(text: Seq<char>) -> Result<ChallengeModel, ParseError> {
    match json_of(text) {
        None => Err(ParseError::Syntax),
        Some(doc) => spec_challenge(doc),
    }
}

/// Parses the body of the challenge GET into a [`LoginChallenge`].
pub fn parse_login_challenge(body: &str) -> (r: Result<LoginChallenge, ParseError>)
    ensures
        match r {
            Ok(c) => spec_login_challenge(body@) == Ok::<ChallengeModel, ParseError>(c@),
            Err(e) => spec_login_challenge(body@) == Err::<ChallengeModel, ParseError>(e),
        },
{
    match parse_json(body) {
        None => Err(ParseError::Syntax),
        Some(doc) => challenge_from_json(&doc),
    }
}

/// The value of the last cookie bearing `name`, if any; a later cookie
/// of the same name supersedes an earlier one.
pub open spec fn spec_last_cookie(cookies: Seq<(String, String)>, name: Seq<char>) -> Option<
    Seq<char>,
>
    decreases cookies.len(),
{
    if cookies.len() == 0 {
        None
    } else if cookies.last().0@ == name {
        Some(cookies.last().1@)
    } else {
        spec_last_cookie(cookies.drop_last(), name)
    }
}

/// Finds the last cookie bearing `name` in a list of (name, value)
/// pairs.
fn last_cookie<'a>(cookies: &'a Vec<(String, String)>, name: &str) -> (r: Option<&'a String>)
    ensures
        match r {
            Some(v) => spec_last_cookie(cookies@, name@) == Some(v@),
            None => spec_last_cookie(cookies@, name@) is None,
        },
{
    let mut j = cookies.len();
    proof {
        assert(cookies@.take(j as int) =~= cookies@);
    }
    while j > 0
        invariant
            j <= cookies@.len(),
            spec_last_cookie(cookies@, name@) == spec_last_cookie(
                cookies@.take(j as int),
                name@,
            ),
        decreases j,
    {
        j = j - 1;
        let entry = &cookies[j];
        proof {
            assert(cookies@.take(j + 1).last() == cookies@[j as int]);
            assert(cookies@.take(j + 1).drop_last() =~= cookies@.take(j as int));
        }
        if str_eq(entry.0.as_str(), name) {
            return Some(&entry.1);
        }
    }
    proof {
        assert(cookies@.take(0) =~= Seq::<(String, String)>::empty());
    }
    None
}

/// The credential that a successful POST's cookies determine: the last
/// `XSRF-TOKEN` cookie's value and the last `Session` cookie's value
/// read as a decimal `u32`. A missing cookie is an authentication
/// failure, not an empty credential; a non-numeric `Session` value is
/// rejected rather than defaulted.
pub open spec fn spec_session_fields(cookies: Seq<(String, String)>) -> Result<
    CredentialModel,
    AuthError,
> {
    match spec_last_cookie(cookies, "XSRF-TOKEN"@) {
        None => Err(AuthError::MissingXsrfToken),
        Some(tok) => match spec_last_cookie(cookies, "Session"@) {
            None => Err(AuthError::MissingSession),
            Some(sv) => match spec_parse_u32(sv) {
                Some(sid) => Ok(CredentialModel { xsrf_token: tok, session_id: sid }),
                None => Err(AuthError::SessionNotNumeric),
            },
        },
    }
}

/// Extracts the session credential from the cookies of a successful
/// login response.
pub fn session_from_cookies(cookies: &Vec<(String, String)>) -> (r: Result<
    SessionCredential,
    AuthError,
>)
    ensures
        match r {
            Ok(c) => spec_session_fields(cookies@) == Ok::<CredentialModel, AuthError>(c@),
            Err(e) => spec_session_fields(cookies@) == Err::<CredentialModel, AuthError>(e),
        },
{
    let token = match last_cookie(cookies, "XSRF-TOKEN") {
        Some(v) => v.clone(),
        None => return Err(AuthError::MissingXsrfToken),
    };
    let session_value = match last_cookie(cookies, "Session") {
        Some(v) => v,
        None => return Err(AuthError::MissingSession),
    };
    match parse_u32_dec(session_value.as_str()) {
        Some(sid) => Ok(SessionCredential { xsrf_token: token, session_id: sid }),
        None => Err(AuthError::SessionNotNumeric),
    }
}

/// Whether an HTTP status is a success status.
pub open spec fn spec_is_success(status: u16) -> bool {
    200 <= status < 300
}

/// What the login POST's response determines: on a non-success status,
/// an authentication error carrying that status, with the cookies never
/// consulted; on success, the credential its cookies determine.
pub open spec fn spec_login_outcome(status: u16, cookies: Seq<(String, String)>) -> Result<
    CredentialModel,
    AuthError,
> {
    if !spec_is_success(status) {
        Err(AuthError::Status(status))
    } else {
        spec_session_fields(cookies)
    }
}

/// Judges the response of the credential POST.
pub fn login_outcome(status: u16, cookies: &Vec<(String, String)>) -> (r: Result<
    SessionCredential,
    AuthError,
>)
    ensures
        match r {
            Ok(c) => spec_login_outcome(status, cookies@) == Ok::<CredentialModel, AuthError>(c@),
            Err(e) => spec_login_outcome(status, cookies@) == Err::<CredentialModel, AuthError>(e),
        },
{
    if status < 200 || status >= 300 {
        return Err(AuthError::Status(status));
    }
    session_from_cookies(cookies)
}

} // verus!
