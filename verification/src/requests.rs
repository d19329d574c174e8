use vstd::prelude::*;
use vstd::string::*;

use crate::errors::{
    SpotitubeError, ValidationErrorKind, spec_default_message, spec_field_messages, spec_flatten,
    spec_flatten_members, spec_member_contribution, spec_top_contribution,
};

verus! {

/// A username is structurally acceptable when it is present and holds at
/// least one character.
pub open spec fn spec_username_ok(u: Option<String>) -> bool {
    u matches Some(s) && s@.len() >= 1
}

/// A password is structurally acceptable when it is present and holds at
/// least eight characters.
pub open spec fn spec_password_ok(p: Option<String>) -> bool {
    p matches Some(s) && s@.len() >= 8
}

/// The envelope entries that failing credential checks render to: one
/// "required" entry per failing member, username first.
pub open spec fn spec_credentials_envelope(username_ok: bool, password_ok: bool) -> Seq<
    (Seq<char>, Seq<Seq<char>>),
> {
    (if username_ok {
        Seq::empty()
    } else {
        seq![("username"@, seq![spec_default_message("username"@)])]
    }) + (if password_ok {
        Seq::empty()
    } else {
        seq![("password"@, seq![spec_default_message("password"@)])]
    })
}

/// One failure-tree entry for a member that failed a check carrying no
/// message of its own.
fn required_field_entry(name: &str) -> (r: (String, ValidationErrorKind))
    ensures
        spec_member_contribution(r) =~~= seq![(name@, seq![spec_default_message(name@)])],
{
    let mut checks: Vec<Option<String>> = Vec::new();
    checks.push(None);
    let r = (String::from_str(name), ValidationErrorKind::Field(checks));
    proof {
        assert(r.1->Field_0@ =~= seq![Option::<String>::None]);
        assert(spec_field_messages(name@, seq![Option::<String>::None]) =~= seq![
            spec_default_message(name@),
        ]);
    }
    r
}

/// Checks the structural rules on a credential pair and returns the failure
/// tree entries of the members that fail, username first.
fn credential_failures(username: &Option<String>, password: &Option<String>) -> (r: Vec<
    (String, ValidationErrorKind),
>)
    ensures
        spec_flatten_members(r@) =~~= spec_credentials_envelope(
            spec_username_ok(*username),
            spec_password_ok(*password),
        ),
        r@.len() == 0 <==> spec_username_ok(*username) && spec_password_ok(*password),
{
    let username_ok = match username {
        Some(u) => u.as_str().unicode_len() >= 1,
        None => false,
    };
    let password_ok = match password {
        Some(p) => p.as_str().unicode_len() >= 8,
        None => false,
    };
    assert(username_ok == spec_username_ok(*username));
    assert(password_ok == spec_password_ok(*password));
    let mut out: Vec<(String, ValidationErrorKind)> = Vec::new();
    if !username_ok {
        out.push(required_field_entry("username"));
    }
    if !password_ok {
        out.push(required_field_entry("password"));
    }
    proof {
        let s = out@;
        assert(spec_flatten_members(Seq::<(String, ValidationErrorKind)>::empty()) =~= Seq::<
            (Seq<char>, Seq<Seq<char>>),
        >::empty());
        if s.len() == 1 {
            assert(s.drop_first() =~= Seq::<(String, ValidationErrorKind)>::empty());
            assert(spec_flatten_members(s) =~= spec_member_contribution(s[0]));
        }
        if s.len() == 2 {
            assert(s.drop_first() =~= seq![s[1]]);
            assert(seq![s[1]].drop_first() =~= Seq::<(String, ValidationErrorKind)>::empty());
            assert(spec_flatten_members(seq![s[1]]) =~= spec_member_contribution(s[1]));
            assert(spec_flatten_members(s) =~= spec_member_contribution(s[0])
                + spec_member_contribution(s[1]));
        }
        assert(spec_flatten_members(s) =~~= spec_credentials_envelope(
            spec_username_ok(*username),
            spec_password_ok(*password),
        ));
    }
    out
}

/// Registration credentials as the transport layer hands them over: either
/// member may be missing, and validation decides.
pub struct RegisterUserDto {
    pub username: Option<String>,
    pub password: Option<String>,
}

/// Login credentials as the transport layer hands them over.
pub struct LoginUserDto {
    pub username: Option<String>,
    pub password: Option<String>,
}

/// A registration request body: the credentials, nested as the wire format
/// nests them.
pub struct RegisterUserRequest {
    pub user: RegisterUserDto,
}

/// A login request body.
pub struct LoginUserRequest {
    pub user: LoginUserDto,
}

impl RegisterUserRequest {
    /// Accepts the request exactly when the username is present with at
    /// least one character and the password is present with at least eight;
    /// otherwise reports a validation failure whose envelope names each
    /// failing member.
    pub fn validate(&self) -> (r: Result<(), SpotitubeError>)
        ensures
            r is Ok <==> spec_username_ok(self.user.username) && spec_password_ok(
                self.user.password,
            ),
            r matches Err(e) ==> e matches SpotitubeError::ValidationError(v) && spec_flatten(v@)
                =~~= spec_credentials_envelope(
                spec_username_ok(self.user.username),
                spec_password_ok(self.user.password),
            ),
    {
        validate_credentials(&self.user.username, &self.user.password)
    }
}

impl LoginUserRequest {
    /// Accepts the request under the same structural rules as registration.
    pub fn validate(&self) -> (r: Result<(), SpotitubeError>)
        ensures
            r is Ok <==> spec_username_ok(self.user.username) && spec_password_ok(
                self.user.password,
            ),
            r matches Err(e) ==> e matches SpotitubeError::ValidationError(v) && spec_flatten(v@)
                =~~= spec_credentials_envelope(
                spec_username_ok(self.user.username),
                spec_password_ok(self.user.password),
            ),
    {
        validate_credentials(&self.user.username, &self.user.password)
    }
}

/// Validates a credential pair and, on failure, wraps the failing members in
/// the failure tree under the request's one "user" struct member.
fn validate_credentials(username: &Option<String>, password: &Option<String>) -> (r: Result<
    (),
    SpotitubeError,
>)
    ensures
        r is Ok <==> spec_username_ok(*username) && spec_password_ok(*password),
        r matches Err(e) ==> e matches SpotitubeError::ValidationError(v) && spec_flatten(v@) =~~=
            spec_credentials_envelope(spec_username_ok(*username), spec_password_ok(*password)),
{
    let failures = credential_failures(username, password);
    if failures.len() == 0 {
        Ok(())
    } else {
        let ghost fseq = failures@;
        let mut top: Vec<(String, ValidationErrorKind)> = Vec::new();
        top.push((String::from_str("user"), ValidationErrorKind::Struct(failures)));
        proof {
            assert(top@.drop_first() =~= Seq::<(String, ValidationErrorKind)>::empty());
            assert(spec_flatten(Seq::<(String, ValidationErrorKind)>::empty()) =~= Seq::<
                (Seq<char>, Seq<Seq<char>>),
            >::empty());
            assert(top@[0].1->Struct_0@ == fseq);
            assert(spec_flatten(top@) =~= spec_top_contribution(top@[0]));
        }
        Err(SpotitubeError::ValidationError(top))
    }
}

} // verus!
