//! Who sends a request, and for which user.
use vstd::prelude::*;

use crate::ids::Uuid;
use crate::server::config::AuthConfig;
use crate::server::error::{AppError, AppErrorModel};
use crate::text;
use crate::text::{strip_prefix, text_eq};

verus! {

// ---------------------------------------------------------------------------
// Tokens
// ---------------------------------------------------------------------------

/// Identifies which interface sent the request by matching the `Authorization:
/// Bearer <token>` header against `config.auth.interface_tokens`.
#[derive(Debug)]
pub struct InterfaceToken(pub String);

/// Identifies a request that the `admin` interface sent.
#[derive(Debug)]
pub struct AdminToken(pub String);

/// The token of an `Authorization` header, if there is a header and it carries
/// one.
pub open spec fn bearer(header: Option<Seq<char>>) -> Option<Seq<char>> {
    match header {
        Some(value) => if "Bearer "@.is_prefix_of(value) {
            Some(value.skip("Bearer "@.len() as int))
        } else {
            None
        },
        None => None,
    }
}

/// The token of an `Authorization` header, if there is a header and it carries
/// one.
pub fn extract_bearer(header: Option<&str>) -> (r: Option<String>)
    ensures
        text::opt_text(r) == bearer(text::opt_str(header)),
{
    match header {
        Some(value) => {
            let r = strip_prefix(value, "Bearer ");
            proof {
                let p = "Bearer "@;
                if r is Some {
                    assert(value@.subrange(0, p.len() as int) =~= p);
                    assert(p.is_prefix_of(value@));
                    assert(value@.skip(p.len() as int) =~= (r->0)@);
                }
            }
            r
        },
        None => None,
    }
}

/// Whether a request with this header comes from the interface `name`.
pub open spec fn comes_from(auth: AuthConfig, header: Option<Seq<char>>, name: Seq<char>) -> bool {
    bearer(header) is Some && auth.holds(name, bearer(header)->0)
}

/// The interface that a request with this header comes from.
pub fn authenticate(auth: &AuthConfig, header: Option<&str>) -> (r: Result<
    InterfaceToken,
    AppError,
>)
    ensures
        match r {
            Ok(token) => comes_from(*auth, text::opt_str(header), token.0@),
            Err(error) => error@ == AppErrorModel::Unauthorized && forall|name: Seq<char>|
                !comes_from(*auth, text::opt_str(header), name),
        },
{
    match extract_bearer(header) {
        None => Err(AppError::Unauthorized),
        Some(token) => match auth.identify_token(token.as_str()) {
            None => Err(AppError::Unauthorized),
            Some(name) => Ok(InterfaceToken(name.to_owned())),
        },
    }
}

/// Validates that a request comes from the `admin` interface.
pub fn authenticate_admin(auth: &AuthConfig, header: Option<&str>) -> (r: Result<
    AdminToken,
    AppError,
>)
    ensures
        match r {
            Ok(token) => token.0@ == "admin"@ && comes_from(
                *auth,
                text::opt_str(header),
                "admin"@,
            ),
            Err(error) => error@ == AppErrorModel::Unauthorized && (comes_from(
                *auth,
                text::opt_str(header),
                "admin"@,
            ) ==> exists|other: Seq<char>|
                other != "admin"@ && #[trigger] comes_from(*auth, text::opt_str(header), other)),
        },
{
    match authenticate(auth, header) {
        Err(error) => Err(error),
        Ok(token) => {
            if text_eq(token.0.as_str(), "admin") {
                Ok(AdminToken(token.0))
            } else {
                assert(comes_from(*auth, text::opt_str(header), token.0@));
                Err(AppError::Unauthorized)
            }
        },
    }
}

// ---------------------------------------------------------------------------
// Telegram identification
// ---------------------------------------------------------------------------

/// The body of `POST /auth/telegram`.
#[derive(Debug)]
pub struct TelegramIdentifyRequest {
    pub telegram_id: String,
    pub display_name: Option<String>,
}

/// The SISAR user that a Telegram user is known as.
#[derive(Debug)]
pub struct TelegramIdentifyResponse {
    pub user_id: Uuid,
    pub tier: String,
}

/// What the identification waits for.
#[derive(Debug)]
pub enum Identification {
    /// The look-up of the identity.
    Lookup,
    /// The update of the display name.
    NameUpdate { user_id: Uuid, tier: String },
    /// The new row of the user.
    UserInsert,
    /// The new row of the identity.
    IdentityInsert { user_id: Uuid },
    /// Nothing: the request is answered.
    Answered,
}

/// What a piece of database work gave.
#[derive(Debug)]
pub enum IdentifyEvent {
    /// The user and tier of the identity, if it is known.
    Found(Option<TelegramIdentifyResponse>),
    NameUpdated,
    UserInserted(Uuid),
    IdentityInserted,
}

/// The database work to do next.
#[derive(Debug)]
pub enum IdentifyAction {
    UpdateName,
    InsertUser,
    InsertIdentity(Uuid),
    Respond(TelegramIdentifyResponse),
}

impl Identification {
    /// Whether the event is what the identification waits for.
    pub open spec fn expects(self, event: IdentifyEvent) -> bool {
        match event {
            IdentifyEvent::Found(_) => self is Lookup,
            IdentifyEvent::NameUpdated => self is NameUpdate,
            IdentifyEvent::UserInserted(_) => self is UserInsert,
            IdentifyEvent::IdentityInserted => self is IdentityInsert,
        }
    }

    /// Whether the identification, after an event, waits as `after` says and
    /// `action` is what comes next: a known identity is answered with its user,
    /// after an update of the display name if the request has one; an unknown one
    /// gets a new user of the free tier.
    pub open spec fn goes_on(
        self,
        event: IdentifyEvent,
        has_name: bool,
        after: Identification,
        action: IdentifyAction,
    ) -> bool {
        match (event, self) {
            (IdentifyEvent::Found(Some(row)), _) => if has_name {
                action is UpdateName && after == (Identification::NameUpdate {
                    user_id: row.user_id,
                    tier: row.tier,
                })
            } else {
                action == IdentifyAction::Respond(row) && after is Answered
            },
            (IdentifyEvent::Found(None), _) => action is InsertUser && after is UserInsert,
            (
                IdentifyEvent::NameUpdated,
                Identification::NameUpdate { user_id, tier },
            ) => action == IdentifyAction::Respond(TelegramIdentifyResponse { user_id, tier })
                && after is Answered,
            (IdentifyEvent::UserInserted(user_id), _) => action == IdentifyAction::InsertIdentity(
                user_id,
            ) && after == (Identification::IdentityInsert { user_id }),
            (
                IdentifyEvent::IdentityInserted,
                Identification::IdentityInsert { user_id },
            ) => after is Answered && match action {
                IdentifyAction::Respond(response) => response.user_id == user_id
                    && response.tier@ == "free"@,
                _ => false,
            },
            _ => false,
        }
    }

    /// Takes what the last piece of database work gave and says what comes next.
    pub fn step(&mut self, event: IdentifyEvent, has_name: bool) -> (r: IdentifyAction)
        requires
            old(self).expects(event),
        ensures
            old(self).goes_on(event, has_name, *final(self), r),
    {
        let mut phase = Identification::Answered;
        std::mem::swap(&mut phase, self);
        match event {
            IdentifyEvent::Found(Some(row)) => {
                if has_name {
                    *self = Identification::NameUpdate { user_id: row.user_id, tier: row.tier };
                    IdentifyAction::UpdateName
                } else {
                    IdentifyAction::Respond(row)
                }
            },
            IdentifyEvent::Found(None) => {
                *self = Identification::UserInsert;
                IdentifyAction::InsertUser
            },
            IdentifyEvent::UserInserted(user_id) => {
                *self = Identification::IdentityInsert { user_id };
                IdentifyAction::InsertIdentity(user_id)
            },
            _ => match phase {
                Identification::NameUpdate { user_id, tier } => IdentifyAction::Respond(
                    TelegramIdentifyResponse { user_id, tier },
                ),
                Identification::IdentityInsert { user_id } => IdentifyAction::Respond(
                    TelegramIdentifyResponse { user_id, tier: "free".to_owned() },
                ),
                _ => IdentifyAction::UpdateName,
            },
        }
    }
}

// ---------------------------------------------------------------------------
// Whole identifications
// ---------------------------------------------------------------------------

/// An identification from its beginning: what it waited for, the events that it
/// took and the actions that it called for.
pub struct IdentifyRun {
    pub phases: Seq<Identification>,
    pub events: Seq<IdentifyEvent>,
    pub actions: Seq<IdentifyAction>,
}

impl IdentifyRun {
    /// Whether the run is one of a request that has a display name or has none.
    pub open spec fn valid(self, has_name: bool) -> bool {
        &&& self.phases.len() == self.events.len() + 1
        &&& self.actions.len() == self.events.len()
        &&& self.phases[0] is Lookup
        &&& forall|i: int|
            0 <= i < self.events.len() ==> self.phases[i].expects(#[trigger] self.events[i])
        &&& forall|i: int|
            0 <= i < self.events.len() ==> self.phases[i].goes_on(
                #[trigger] self.events[i],
                has_name,
                self.phases[i + 1],
                self.actions[i],
            )
    }

    /// Whether the run ends with this answer.
    pub open spec fn answers(self, response: TelegramIdentifyResponse) -> bool {
        self.actions.len() > 0 && self.actions.last() == IdentifyAction::Respond(response)
    }

    /// Whether the look-up tells what a table of identities, which holds the user
    /// of each Telegram user, says of one of them.
    pub open spec fn reads(self, identities: Map<Seq<char>, Uuid>, id: Seq<char>) -> bool {
        self.events.len() > 0 && match self.events[0] {
            IdentifyEvent::Found(Some(row)) => identities.dom().contains(id) && identities[id]
                == row.user_id,
            IdentifyEvent::Found(None) => !identities.dom().contains(id),
            _ => false,
        }
    }

    /// Whether the run adds a user or an identity.
    pub open spec fn adds(self) -> bool {
        exists|i: int|
            0 <= i < self.actions.len() && (#[trigger] self.actions[i] is InsertUser
                || self.actions[i] is InsertIdentity)
    }
}

/// A table of identities after actions for a Telegram user.
pub open spec fn written(
    identities: Map<Seq<char>, Uuid>,
    id: Seq<char>,
    actions: Seq<IdentifyAction>,
) -> Map<Seq<char>, Uuid>
    decreases actions.len(),
{
    if actions.len() == 0 {
        identities
    } else {
        let before = written(identities, id, actions.drop_last());
        match actions.last() {
            IdentifyAction::InsertIdentity(user_id) => before.insert(id, user_id),
            _ => before,
        }
    }
}

/// A Telegram user who is known keeps their user: no user and no identity is
/// added, and the answer is the user that was found.
pub proof fn known_users_are_kept(
    run: IdentifyRun,
    has_name: bool,
    row: TelegramIdentifyResponse,
    identities: Map<Seq<char>, Uuid>,
    id: Seq<char>,
)
    requires
        run.valid(has_name),
        run.events.len() > 0,
        run.events[0] == IdentifyEvent::Found(Some(row)),
    ensures
        !run.adds(),
        written(identities, id, run.actions) == identities,
        forall|i: int|
            0 <= i < run.actions.len() ==> (#[trigger] run.actions[i] matches IdentifyAction::Respond(
                response,
            ) ==> response.user_id == row.user_id && response.tier == row.tier),
{
    reveal_with_fuel(written, 3);
    let n = run.events.len();
    assert(run.phases[0].goes_on(run.events[0], has_name, run.phases[1], run.actions[0]));
    if n > 1 {
        assert(run.phases[1].expects(run.events[1]));
        assert(run.phases[1].goes_on(run.events[1], has_name, run.phases[2], run.actions[1]));
        assert(run.phases[2] is Answered);
    }
    if n > 2 {
        assert(run.phases[2].expects(run.events[2]));
    }
    assert(n <= 2);
    assert forall|i: int| 0 <= i < run.actions.len() implies !(#[trigger] run.actions[i] is InsertUser
        || run.actions[i] is InsertIdentity) by {
        assert(i == 0 || i == 1);
    }
    assert forall|i: int| 0 <= i < run.actions.len() implies (
    #[trigger] run.actions[i] matches IdentifyAction::Respond(response) ==> response.user_id
        == row.user_id && response.tier == row.tier) by {
        assert(i == 0 || i == 1);
    }
}

/// A Telegram user who is answered is known from then on, by the user of the
/// answer.
pub proof fn answered_users_are_known(
    run: IdentifyRun,
    has_name: bool,
    response: TelegramIdentifyResponse,
    identities: Map<Seq<char>, Uuid>,
    id: Seq<char>,
)
    requires
        run.valid(has_name),
        run.reads(identities, id),
        run.answers(response),
    ensures
        written(identities, id, run.actions).dom().contains(id),
        written(identities, id, run.actions)[id] == response.user_id,
{
    match run.events[0] {
        IdentifyEvent::Found(Some(row)) => {
            known_users_are_kept(run, has_name, row, identities, id);
            assert(run.actions[run.actions.len() - 1] == IdentifyAction::Respond(response));
        },
        _ => {
            reveal_with_fuel(written, 4);
            let n = run.events.len();
            assert(run.phases[0].goes_on(run.events[0], has_name, run.phases[1], run.actions[0]));
            assert(n > 1);
            assert(run.phases[1].expects(run.events[1]));
            assert(run.phases[1].goes_on(run.events[1], has_name, run.phases[2], run.actions[1]));
            assert(n > 2);
            assert(run.phases[2].expects(run.events[2]));
            assert(run.phases[2].goes_on(run.events[2], has_name, run.phases[3], run.actions[2]));
            if n > 3 {
                assert(run.phases[3].expects(run.events[3]));
            }
            assert(n == 3);
            assert(run.actions.drop_last().last() == run.actions[1]);
        },
    }
}

/// Identifying a Telegram user again gives the same user, as long as the identity
/// is not taken away in between, and adds neither a user nor an identity.
pub proof fn identifying_twice_gives_one_user(
    first: IdentifyRun,
    second: IdentifyRun,
    first_has_name: bool,
    second_has_name: bool,
    r1: TelegramIdentifyResponse,
    r2: TelegramIdentifyResponse,
    before: Map<Seq<char>, Uuid>,
    between: Map<Seq<char>, Uuid>,
    id: Seq<char>,
)
    requires
        first.valid(first_has_name),
        first.reads(before, id),
        first.answers(r1),
        between.dom().contains(id),
        between[id] == written(before, id, first.actions)[id],
        second.valid(second_has_name),
        second.reads(between, id),
        second.answers(r2),
    ensures
        r2.user_id == r1.user_id,
        !second.adds(),
        written(between, id, second.actions) == between,
{
    answered_users_are_known(first, first_has_name, r1, before, id);
    match second.events[0] {
        IdentifyEvent::Found(Some(row)) => {
            known_users_are_kept(second, second_has_name, row, between, id);
            assert(second.actions[second.actions.len() - 1] == IdentifyAction::Respond(r2));
        },
        _ => {},
    }
}

/// A request is let in exactly with a token of an interface behind the word `Bearer`
/// and a space: whoever has the token comes from that interface, and no other header
/// carries a token.
pub proof fn tokens_let_their_interface_in(
    auth: AuthConfig,
    token: Seq<char>,
    name: Seq<char>,
    header: Seq<char>,
)
    ensures
        comes_from(auth, Some("Bearer "@ + token), name) <==> exists|i: int|
            0 <= i < auth.interface_tokens.len() && (#[trigger] auth.interface_tokens[i]).name@
                == name && auth.interface_tokens[i].token@ == token,
        comes_from(auth, Some(header), name) ==> header.len() >= 7 && header.take(7)
            == "Bearer "@,
        !comes_from(auth, None, name),
{
    reveal_strlit("Bearer ");
    let whole = "Bearer "@ + token;
    assert("Bearer "@.len() == 7);
    assert(whole.subrange(0, 7) =~= "Bearer "@);
    assert(whole.skip(7) =~= token);
    if comes_from(auth, Some(header), name) {
        assert("Bearer "@.is_prefix_of(header));
        assert(header.take(7) =~= header.subrange(0, 7));
    }
}

} // verus!
