//! Request and response shapes of the authentication API.
use vstd::prelude::*;

use crate::modules::requirements::dto::{issue_if, issue_views};
use crate::text::{trim, trim_str};
use crate::validation::{length_issue, length_ok, spec_length_ok, ValidationIssue};

verus! {

/// What `validator::ValidateEmail::validate_email` answers for `s` (the HTML5
/// e-mail address grammar, with IDN domains).
pub uninterp spec fn email_address_is_valid(s: Seq<char>) -> bool;

/// `validator::ValidateEmail::validate_email` on `s`. Its source rejects an
/// empty address and one without `@` before any pattern is tried.
#[verifier::external_body]
fn validate_email_address(s: &str) -> (r: bool)
    ensures
        r == email_address_is_valid(s@),
        (s@.len() == 0 || !s@.contains('@')) ==> !r,
{
    validator::ValidateEmail::validate_email(&s)
}

/// What `str::to_lowercase` returns for `s` (Unicode lower-case mapping).
pub uninterp spec fn unicode_lowercase(s: Seq<char>) -> Seq<char>;

/// `str::to_lowercase`.
#[verifier::external_body]
fn to_lowercase(s: &str) -> (r: String)
    ensures
        r@ == unicode_lowercase(s@),
{
    s.to_lowercase()
}

/// E-mail addresses are compared trimmed and lower-cased.
pub fn normalize_email(email: &str) -> (r: String)
    ensures
        r@ == unicode_lowercase(trim(email@)),
{
    let trimmed = trim_str(email);
    to_lowercase(trimmed.as_str())
}

fn push_issue(issues: &mut Vec<ValidationIssue>, issue: ValidationIssue)
    ensures
        final(issues)@ == old(issues)@.push(issue),
{
    issues.push(issue);
}

/// Staff accounts cannot self-register.
#[derive(Debug, Clone, Copy, PartialEq, Eq, Structural)]
pub enum RegistrationAccountType {
    Customer,
    Supplier,
}

pub struct RegisterRequest {
    pub email: String,
    pub password: String,
    pub full_name: String,
    pub account_type: RegistrationAccountType,
}

pub struct LoginRequest {
    pub email: String,
    pub password: String,
}

/// The issues of an e-mail field: a valid address of at most 254 characters.
pub open spec fn email_issues(email: Seq<char>) -> Seq<(Seq<char>, Seq<char>)> {
    issue_if(email_address_is_valid(email), "email"@, "email"@) + issue_if(
        spec_length_ok(email.len(), None, Some(254), None),
        "email"@,
        "length"@,
    )
}

fn check_email(issues: &mut Vec<ValidationIssue>, email: &str)
    ensures
        issue_views(final(issues)@) == issue_views(old(issues)@) + email_issues(email@),
{
    let ghost start = issue_views(issues@);
    if !validate_email_address(email) {
        push_issue(issues, ValidationIssue { field: "email", code: "email" });
    }
    assert(issue_views(issues@) =~= start + issue_if(
        email_address_is_valid(email@),
        "email"@,
        "email"@,
    ));
    if !length_ok(email, None, Some(254), None) {
        push_issue(issues, length_issue("email"));
    }
    assert(issue_views(issues@) =~= start + email_issues(email@));
}

impl RegisterRequest {
    pub open spec fn spec_issues(&self) -> Seq<(Seq<char>, Seq<char>)> {
        email_issues(self.email@) + issue_if(
            spec_length_ok(self.password@.len(), Some(12), Some(128), None),
            "password"@,
            "length"@,
        ) + issue_if(
            spec_length_ok(self.full_name@.len(), Some(1), Some(200), None),
            "full_name"@,
            "length"@,
        )
    }

    /// A valid e-mail address of at most 254 characters, a password of 12 to
    /// 128 characters and a full name of 1 to 200 characters.
    pub fn validate(&self) -> (r: Result<(), Vec<ValidationIssue>>)
        ensures
            r is Ok <==> self.spec_issues().len() == 0,
            r matches Err(issues) ==> issue_views(issues@) == self.spec_issues(),
    {
        let mut issues: Vec<ValidationIssue> = Vec::new();
        check_email(&mut issues, self.email.as_str());
        assert(issue_views(issues@) =~= email_issues(self.email@));
        let ghost after_email = issue_views(issues@);
        if !length_ok(self.password.as_str(), Some(12), Some(128), None) {
            push_issue(&mut issues, length_issue("password"));
        }
        assert(issue_views(issues@) =~= after_email + issue_if(
            spec_length_ok(self.password@.len(), Some(12), Some(128), None),
            "password"@,
            "length"@,
        ));
        let ghost after_password = issue_views(issues@);
        if !length_ok(self.full_name.as_str(), Some(1), Some(200), None) {
            push_issue(&mut issues, length_issue("full_name"));
        }
        assert(issue_views(issues@) =~= after_password + issue_if(
            spec_length_ok(self.full_name@.len(), Some(1), Some(200), None),
            "full_name"@,
            "length"@,
        ));
        if issues.len() == 0 {
            Ok(())
        } else {
            Err(issues)
        }
    }

    /// The registration command: e-mail trimmed and lower-cased, full name
    /// trimmed.
    pub fn into_command(self) -> (c: RegisterUser)
        ensures
            c.email@ == unicode_lowercase(trim(self.email@)),
            c.password == self.password,
            c.full_name@ == trim(self.full_name@),
            c.account_type == self.account_type,
    {
        let email = normalize_email(self.email.as_str());
        let full_name = trim_str(self.full_name.as_str());
        RegisterUser { email, password: self.password, full_name, account_type: self.account_type }
    }
}

impl LoginRequest {
    pub open spec fn spec_issues(&self) -> Seq<(Seq<char>, Seq<char>)> {
        email_issues(self.email@) + issue_if(
            spec_length_ok(self.password@.len(), Some(1), Some(128), None),
            "password"@,
            "length"@,
        )
    }

    /// A valid e-mail address of at most 254 characters and a password of 1
    /// to 128 characters.
    pub fn validate(&self) -> (r: Result<(), Vec<ValidationIssue>>)
        ensures
            r is Ok <==> self.spec_issues().len() == 0,
            r matches Err(issues) ==> issue_views(issues@) == self.spec_issues(),
    {
        let mut issues: Vec<ValidationIssue> = Vec::new();
        check_email(&mut issues, self.email.as_str());
        assert(issue_views(issues@) =~= email_issues(self.email@));
        let ghost after_email = issue_views(issues@);
        if !length_ok(self.password.as_str(), Some(1), Some(128), None) {
            push_issue(&mut issues, length_issue("password"));
        }
        assert(issue_views(issues@) =~= after_email + issue_if(
            spec_length_ok(self.password@.len(), Some(1), Some(128), None),
            "password"@,
            "length"@,
        ));
        if issues.len() == 0 {
            Ok(())
        } else {
            Err(issues)
        }
    }

    /// The login attempt handed to the use case: the e-mail address
    /// normalised, the password as given. The client's user agent and IP
    /// address are not captured yet.
    pub fn into_command(self) -> (c: LoginUser)
        ensures
            c.email@ == unicode_lowercase(trim(self.email@)),
            c.password == self.password,
            c.user_agent is None,
            c.ip_address is None,
    {
        let email = normalize_email(self.email.as_str());
        LoginUser { email, password: self.password, user_agent: None, ip_address: None }
    }
}

/// A login attempt, as handed to the use case.
pub struct LoginUser {
    pub email: String,
    pub password: String,
    pub user_agent: Option<String>,
    /// The client's IP address, as text.
    pub ip_address: Option<String>,
}

/// A registration, as handed to the use case.
pub struct RegisterUser {
    pub email: String,
    pub password: String,
    pub full_name: String,
    pub account_type: RegistrationAccountType,
}

/// Tokens issued by a successful login.
pub struct IssuedTokens {
    pub access_token: String,
    pub access_token_expires_in: u64,
    pub refresh_token: String,
    pub refresh_token_expires_in: u64,
}

pub struct TokenResponse {
    pub access_token: String,
    pub token_type: &'static str,
    pub expires_in: u64,
    pub refresh_token: Option<String>,
}

impl TokenResponse {
    /// The login answer: a bearer access token with its lifetime, and the
    /// refresh token.
    pub fn from_tokens(tokens: IssuedTokens) -> (r: TokenResponse)
        ensures
            r.access_token == tokens.access_token,
            r.token_type@ == "Bearer"@,
            r.expires_in == tokens.access_token_expires_in,
            r.refresh_token == Some(tokens.refresh_token),
    {
        TokenResponse {
            access_token: tokens.access_token,
            token_type: "Bearer",
            expires_in: tokens.access_token_expires_in,
            refresh_token: Some(tokens.refresh_token),
        }
    }
}

} // verus!
