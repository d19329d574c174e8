use vstd::prelude::*;
use vstd::string::StringExecFns;

verus! {

/// Model of a validation failure tree, as the validation collaborator reports
/// it: a struct maps member names to nested failures, a list maps indices, and
/// a field carries one entry per failed check, each with an optional message.
#[derive(Debug)]
pub enum ValidationErrorKind {
    Struct(Vec<(String, ValidationErrorKind)>),
    List(Vec<(u64, ValidationErrorKind)>),
    Field(Vec<Option<String>>),
}

/// The typed failure result of every operation of this core. Store, hashing
/// and signing internals are collapsed into opaque variants and never carry
/// driver detail to the caller.
#[derive(Debug)]
pub enum SpotitubeError {
    Unauthorized,
    InvalidUsername,
    InvalidPassword,
    Forbidden,
    AppStartup,
    NotFound(String),
    BadRequest(String),
    Conflict(String),
    InternalServerError,
    HashingFailure,
    SigningFailure,
    InvalidToken,
    ValidationError(Vec<(String, ValidationErrorKind)>),
}

pub type SpotitubeResult<T> = Result<T, SpotitubeError>;

/// The uniform error envelope of the service: a mapping from a field name (or
/// the literal key "message") to a list of human-readable strings.
#[derive(Debug)]
pub struct ApiError {
    pub errors: Vec<(String, Vec<String>)>,
}

/// The envelope's mathematical shape: each entry as a field name with its
/// message list.
pub open spec fn entries_view(v: Seq<(String, Vec<String>)>) -> Seq<(Seq<char>, Seq<Seq<char>>)> {
    v.map(|i: int, e: (String, Vec<String>)| (e.0@, e.1.deep_view()))
}

impl ApiError {
    pub fn from_str(error: &str) -> (r: Self)
        ensures
            entries_view(r.errors@) =~~= spec_message_envelope(error@),
    {
        let mut messages: Vec<String> = Vec::new();
        messages.push(String::from_str(error));
        let mut errors: Vec<(String, Vec<String>)> = Vec::new();
        errors.push((String::from_str("message"), messages));
        Self { errors }
    }

    pub fn from_map(errors: Vec<(String, Vec<String>)>) -> (r: Self)
        ensures
            r.errors == errors,
    {
        Self { errors }
    }
}

/// An envelope holding one entry: the key "message" with the one given text.
pub open spec fn spec_message_envelope(msg: Seq<char>) -> Seq<(Seq<char>, Seq<Seq<char>>)> {
    seq![("message"@, seq![msg])]
}

/// The default text for a failed check that carries no message of its own.
pub open spec fn spec_default_message(field: Seq<char>) -> Seq<char> {
    field + " is required"@
}

/// The texts rendered for one field: each check's own message, or the default.
pub open spec fn spec_field_messages(field: Seq<char>, raw: Seq<Option<String>>) -> Seq<Seq<char>> {
    raw.map(
        |i: int, m: Option<String>|
            match m {
                Some(s) => s@,
                None => spec_default_message(field),
            },
    )
}

/// The entries rendered for the members of one failed struct: one entry per
/// member whose failures are field checks, in order.
pub open spec fn spec_flatten_members(entries: Seq<(String, ValidationErrorKind)>) -> Seq<
    (Seq<char>, Seq<Seq<char>>),
>
    decreases entries.len(),
{
    if entries.len() == 0 {
        Seq::empty()
    } else {
        spec_member_contribution(entries[0]) + spec_flatten_members(entries.drop_first())
    }
}

/// The whole envelope rendered for a validation failure tree: the members of
/// every struct entry, in order; entries of any other kind are passed over.
pub open spec fn spec_flatten(top: Seq<(String, ValidationErrorKind)>) -> Seq<
    (Seq<char>, Seq<Seq<char>>),
>
    decreases top.len(),
{
    if top.len() == 0 {
        Seq::empty()
    } else {
        spec_top_contribution(top[0]) + spec_flatten(top.drop_first())
    }
}

/// What one member of a failed struct contributes to the envelope: its field
/// entry when its failures are field checks, and nothing otherwise.
pub open spec fn spec_member_contribution(e: (String, ValidationErrorKind)) -> Seq<
    (Seq<char>, Seq<Seq<char>>),
> {
    match e.1 {
        ValidationErrorKind::Field(raw) => seq![(e.0@, spec_field_messages(e.0@, raw@))],
        _ => Seq::empty(),
    }
}

/// What one top-level entry contributes: the member entries of a struct, and
/// nothing otherwise.
pub open spec fn spec_top_contribution(e: (String, ValidationErrorKind)) -> Seq<
    (Seq<char>, Seq<Seq<char>>),
> {
    match e.1 {
        ValidationErrorKind::Struct(members) => spec_flatten_members(members@),
        _ => Seq::empty(),
    }
}

proof fn lemma_flatten_members_push(s: Seq<(String, ValidationErrorKind)>, e: (String, ValidationErrorKind))
    ensures
        spec_flatten_members(s.push(e)) =~= spec_flatten_members(s) + spec_member_contribution(e),
    decreases s.len(),
{
    if s.len() == 0 {
        assert(s.push(e)[0] == e);
        assert(s.push(e).drop_first() =~= Seq::<(String, ValidationErrorKind)>::empty());
        assert(spec_flatten_members(Seq::<(String, ValidationErrorKind)>::empty())
            =~= Seq::<(Seq<char>, Seq<Seq<char>>)>::empty());
        assert(spec_flatten_members(s.push(e)) =~= spec_member_contribution(e));
    } else {
        assert(s.push(e)[0] == s[0]);
        assert(s.push(e).drop_first() =~= s.drop_first().push(e));
        lemma_flatten_members_push(s.drop_first(), e);
        assert(spec_flatten_members(s.push(e)) =~= spec_member_contribution(s[0]) + (
        spec_flatten_members(s.drop_first()) + spec_member_contribution(e)));
    }
}

proof fn lemma_flatten_push(s: Seq<(String, ValidationErrorKind)>, e: (String, ValidationErrorKind))
    ensures
        spec_flatten(s.push(e)) =~= spec_flatten(s) + spec_top_contribution(e),
    decreases s.len(),
{
    if s.len() == 0 {
        assert(s.push(e)[0] == e);
        assert(s.push(e).drop_first() =~= Seq::<(String, ValidationErrorKind)>::empty());
        assert(spec_flatten(Seq::<(String, ValidationErrorKind)>::empty()) =~= Seq::<
            (Seq<char>, Seq<Seq<char>>),
        >::empty());
        assert(spec_flatten(s.push(e)) =~= spec_top_contribution(e));
    } else {
        assert(s.push(e)[0] == s[0]);
        assert(s.push(e).drop_first() =~= s.drop_first().push(e));
        lemma_flatten_push(s.drop_first(), e);
        assert(spec_flatten(s.push(e)) =~= spec_top_contribution(s[0]) + (spec_flatten(
            s.drop_first(),
        ) + spec_top_contribution(e)));
    }
}

/// Renders one field's checks into texts: each check's message, or the
/// default "<field> is required".
#[verifier::loop_isolation(false)]
fn render_field_messages(field: &String, raw: &Vec<Option<String>>) -> (r: Vec<String>)
    ensures
        r.deep_view() =~= spec_field_messages(field@, raw@),
{
    let mut out: Vec<String> = Vec::new();
    let mut i: usize = 0;
    while i < raw.len()
        invariant
            i <= raw.len(),
            out@.len() == i,
            forall|k: int| 0 <= k < i ==> out@[k]@ == spec_field_messages(field@, raw@)[k],
        decreases raw.len() - i,
    {
        let ghost prev = out@;
        match &raw[i] {
            Some(s) => {
                let msg = s.clone();
                assert(msg@ == raw@[i as int]->0@);
                out.push(msg);
            },
            None => {
                let msg = field.clone().concat(" is required");
                assert(msg@ == spec_default_message(field@));
                out.push(msg);
            },
        }
        proof {
            assert(out@[i as int]@ == spec_field_messages(field@, raw@)[i as int]);
            assert(forall|k: int| 0 <= k < i ==> out@[k] == prev[k]);
        }
        i = i + 1;
    }
    out
}

/// Flattens a validation failure tree into the uniform envelope entries: for
/// every top-level struct entry, one envelope entry per member whose failures
/// are field checks, each message its own or the default.
#[verifier::loop_isolation(false)]
pub fn flatten_validation_errors(errors: &Vec<(String, ValidationErrorKind)>) -> (r: Vec<
    (String, Vec<String>),
>)
    ensures
        entries_view(r@) =~~= spec_flatten(errors@),
{
    let mut out: Vec<(String, Vec<String>)> = Vec::new();
    let mut i: usize = 0;
    while i < errors.len()
        invariant
            i <= errors.len(),
            entries_view(out@) =~~= spec_flatten(errors@.take(i as int)),
        decreases errors.len() - i,
    {
        let ghost prefix = errors@.take(i as int);
        match &errors[i].1 {
            ValidationErrorKind::Struct(members) => {
                let mut j: usize = 0;
                while j < members.len()
                    invariant
                        j <= members.len(),
                        entries_view(out@) =~~= spec_flatten(prefix) + spec_flatten_members(
                            members@.take(j as int),
                        ),
                    decreases members.len() - j,
                {
                    let ghost mprefix = members@.take(j as int);
                    let ghost prev = out@;
                    match &members[j].1 {
                        ValidationErrorKind::Field(raw) => {
                            let texts = render_field_messages(&members[j].0, raw);
                            out.push((members[j].0.clone(), texts));
                            proof {
                                assert(entries_view(out@) =~~= entries_view(prev).push(
                                    (
                                        members@[j as int].0@,
                                        spec_field_messages(members@[j as int].0@, raw@),
                                    ),
                                ));
                            }
                        },
                        _ => {
                            proof {
                                assert(spec_member_contribution(members@[j as int]) =~~= Seq::<
                                    (Seq<char>, Seq<Seq<char>>),
                                >::empty());
                            }
                        },
                    }
                    proof {
                        assert(members@.take(j + 1) =~= mprefix.push(members@[j as int]));
                        lemma_flatten_members_push(mprefix, members@[j as int]);
                        assert(entries_view(out@) =~~= spec_flatten(prefix)
                            + spec_flatten_members(members@.take(j + 1)));
                    }
                    j = j + 1;
                }
                proof {
                    assert(members@.take(members@.len() as int) =~= members@);
                    assert(spec_top_contribution(errors@[i as int]) =~~= spec_flatten_members(
                        members@,
                    ));
                }
            },
            _ => {
                proof {
                    assert(spec_top_contribution(errors@[i as int]) =~~= Seq::<
                        (Seq<char>, Seq<Seq<char>>),
                    >::empty());
                }
            },
        }
        proof {
            assert(errors@.take(i + 1) =~= prefix.push(errors@[i as int]));
            lemma_flatten_push(prefix, errors@[i as int]);
            assert(entries_view(out@) =~~= spec_flatten(errors@.take(i + 1)));
        }
        i = i + 1;
    }
    proof {
        assert(errors@.take(errors@.len() as int) =~= errors@);
    }
    out
}

/// The wire classification of each failure: a status code and the envelope.
pub open spec fn spec_response(e: SpotitubeError) -> (u16, Seq<(Seq<char>, Seq<Seq<char>>)>) {
    match e {
        SpotitubeError::Unauthorized => (401, spec_message_envelope("unauthorized"@)),
        SpotitubeError::InvalidUsername => (400, spec_message_envelope("invalid username"@)),
        SpotitubeError::InvalidPassword => (400, spec_message_envelope("invalid password"@)),
        SpotitubeError::Conflict(m) => (409, spec_message_envelope(m@)),
        SpotitubeError::NotFound(m) => (404, spec_message_envelope(m@)),
        SpotitubeError::ValidationError(v) => (422, spec_flatten(v@)),
        _ => (500, spec_message_envelope("internal server error"@)),
    }
}

impl SpotitubeError {
    /// Renders this failure into its wire shape: a status classification and
    /// the uniform error envelope. Internal failures are collapsed into one
    /// opaque message; no driver detail ever reaches the caller.
    pub fn response_parts(self) -> (r: (u16, ApiError))
        ensures
            r.0 == spec_response(self).0,
            entries_view(r.1.errors@) =~~= spec_response(self).1,
    {
        match self {
            SpotitubeError::Unauthorized => (401, ApiError::from_str("unauthorized")),
            SpotitubeError::InvalidUsername => (400, ApiError::from_str("invalid username")),
            SpotitubeError::InvalidPassword => (400, ApiError::from_str("invalid password")),
            SpotitubeError::Conflict(m) => (409, ApiError::from_str(m.as_str())),
            SpotitubeError::NotFound(m) => (404, ApiError::from_str(m.as_str())),
            SpotitubeError::ValidationError(v) => (
                422,
                ApiError::from_map(flatten_validation_errors(&v)),
            ),
            _ => (500, ApiError::from_str("internal server error")),
        }
    }
}

} // verus!
