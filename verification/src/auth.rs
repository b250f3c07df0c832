//! Who may do what, by the login that the network vouches for.
use vstd::prelude::*;

use crate::http;
use crate::http::{FORBIDDEN, UNAUTHORIZED};
use crate::text;

verus! {

/// Decides by e-mail address. In the environment `local` everyone may do everything.
#[derive(Debug, Clone)]
pub struct EmailCheck {
    env: String,
    admin_email: String,
    whitelist: Vec<String>,
}

/// What a check decides by, as characters.
pub struct EmailRules {
    pub env: Seq<char>,
    pub admin_email: Seq<char>,
    pub whitelist: Seq<Seq<char>>,
}

impl View for EmailCheck {
    type V = EmailRules;

    closed spec fn view(&self) -> EmailRules {
        EmailRules {
            env: self.env@,
            admin_email: self.admin_email@,
            whitelist: text::texts_of(self.whitelist@),
        }
    }
}

/// A decision: the request goes on, with the user's address where it was looked at, or it is
/// answered with a status.
pub type Decision = Result<Option<Seq<char>>, u16>;

/// Who may make a request.
#[derive(Debug, Clone, Copy)]
pub enum Access {
    /// The administrator: the request has to pass the check of guests and then the administrator's.
    Admin,
    /// The administrator and guests.
    Guest,
    /// Everyone, unseen.
    Everyone,
}

impl EmailRules {
    /// Requests are let through unseen.
    pub open spec fn local(self) -> bool {
        self.env == "local"@
    }

    /// What becomes of a request that only the administrator may make.
    pub open spec fn admin_decision(self, login: Option<Seq<char>>) -> Decision {
        if self.local() {
            Ok(None)
        } else {
            match login {
                None => Err(UNAUTHORIZED),
                Some(email) => if email == self.admin_email {
                    Ok(Some(email))
                } else {
                    Err(FORBIDDEN)
                },
            }
        }
    }

    /// What becomes of a request that the administrator and guests may make.
    pub open spec fn guest_decision(self, login: Option<Seq<char>>) -> Decision {
        if self.local() {
            Ok(None)
        } else {
            match login {
                None => Err(UNAUTHORIZED),
                Some(email) => if email == self.admin_email || self.whitelist.contains(email) {
                    Ok(Some(email))
                } else {
                    Err(FORBIDDEN)
                },
            }
        }
    }

    /// What becomes of a request that has to pass the check of guests and then that of the
    /// administrator.
    pub open spec fn layered_decision(self, login: Option<Seq<char>>) -> Decision {
        match self.guest_decision(login) {
            Ok(_) => self.admin_decision(login),
            Err(status) => Err(status),
        }
    }

    /// What becomes of a request.
    pub open spec fn decision(self, access: Access, login: Option<Seq<char>>) -> Decision {
        match access {
            Access::Admin => self.layered_decision(login),
            Access::Guest => self.guest_decision(login),
            Access::Everyone => Ok(None),
        }
    }
}

/// A decision of a check, as characters.
pub open spec fn decision_of(r: Result<Option<String>, u16>) -> Decision {
    match r {
        Ok(user) => Ok(text::text_of(user)),
        Err(status) => Err(status),
    }
}

/// The header that carries the login.
pub fn login_header() -> (r: &'static str)
    ensures
        r@ == "tailscale-user-login"@,
{
    "tailscale-user-login"
}

impl EmailCheck {
    pub fn new(admin_email: String, whitelist: Vec<String>, env: String) -> (r: Self)
        ensures
            r@ == (EmailRules {
                env: env@,
                admin_email: admin_email@,
                whitelist: text::texts_of(whitelist@),
            }),
    {
        EmailCheck { admin_email, whitelist, env }
    }

    /// Whether an address is on the list of guests.
    fn is_whitelisted(&self, email: &String) -> (r: bool)
        ensures
            r == self@.whitelist.contains(email@),
    {
        let ghost list = text::texts_of(self.whitelist@);
        let mut i: usize = 0;
        while i < self.whitelist.len()
            invariant
                i <= self.whitelist@.len(),
                list == text::texts_of(self.whitelist@),
                forall|j: int| 0 <= j < i ==> list[j] != email@,
            decreases self.whitelist@.len() - i,
        {
            assert(list[i as int] == self.whitelist@[i as int]@);
            if self.whitelist[i] == *email {
                return true;
            }
            i = i + 1;
        }
        false
    }

    /// Decides on a request that only the administrator may make. `login` is the raw value of
    /// the login header, if the request carries one.
    pub fn admin_middleware(&self, login: Option<&[u8]>) -> (r: Result<Option<String>, u16>)
        ensures
            decision_of(r) == self@.admin_decision(
                http::header_value_chars(http::header_bytes(login)),
            ),
            self@.env == "local"@ ==> r == Ok::<Option<String>, u16>(None),
            self@.env != "local"@ ==> match http::header_value_chars(http::header_bytes(login)) {
                None => r == Err::<Option<String>, u16>(401),
                Some(email) => if email == self@.admin_email {
                    r matches Ok(Some(user)) && user@ == email
                } else {
                    r == Err::<Option<String>, u16>(403)
                },
            },
    {
        if text::same_text(self.env.as_str(), "local") {
            return Ok(None);
        }
        match http::header_text(login) {
            None => Err(UNAUTHORIZED),
            Some(email) => {
                if email == self.admin_email {
                    Ok(Some(email))
                } else {
                    Err(FORBIDDEN)
                }
            },
        }
    }

    /// Decides on a request that the administrator and guests may make. `login` is the raw value
    /// of the login header, if the request carries one.
    pub fn guest_middleware(&self, login: Option<&[u8]>) -> (r: Result<Option<String>, u16>)
        ensures
            decision_of(r) == self@.guest_decision(
                http::header_value_chars(http::header_bytes(login)),
            ),
            self@.env == "local"@ ==> r == Ok::<Option<String>, u16>(None),
            self@.env != "local"@ ==> match http::header_value_chars(http::header_bytes(login)) {
                None => r == Err::<Option<String>, u16>(401),
                Some(email) => if email == self@.admin_email || self@.whitelist.contains(email) {
                    r matches Ok(Some(user)) && user@ == email
                } else {
                    r == Err::<Option<String>, u16>(403)
                },
            },
    {
        if text::same_text(self.env.as_str(), "local") {
            return Ok(None);
        }
        match http::header_text(login) {
            None => Err(UNAUTHORIZED),
            Some(email) => {
                if email == self.admin_email || self.is_whitelisted(&email) {
                    Ok(Some(email))
                } else {
                    Err(FORBIDDEN)
                }
            },
        }
    }

    /// Decides on a request. `login` is the raw value of the login header, if the request carries
    /// one.
    pub fn authorize(&self, access: Access, login: Option<&[u8]>) -> (r: Result<
        Option<String>,
        u16,
    >)
        ensures
            decision_of(r) == self@.decision(
                access,
                http::header_value_chars(http::header_bytes(login)),
            ),
            self@.env == "local"@ || access is Everyone ==> r == Ok::<Option<String>, u16>(None),
            self@.env != "local"@ && !(access is Everyone) ==> match http::header_value_chars(
                http::header_bytes(login),
            ) {
                None => r == Err::<Option<String>, u16>(401),
                Some(email) => if email == self@.admin_email || (access is Guest
                    && self@.whitelist.contains(email)) {
                    r matches Ok(Some(user)) && user@ == email
                } else {
                    r == Err::<Option<String>, u16>(403)
                },
            },
    {
        match access {
            Access::Admin => match self.guest_middleware(login) {
                Ok(_) => self.admin_middleware(login),
                Err(status) => Err(status),
            },
            Access::Guest => self.guest_middleware(login),
            Access::Everyone => Ok(None),
        }
    }
}

/// Whatever the administrator's check lets through, that of guests does too: whoever may switch
/// channels may also join as a guest. A request that has to pass both is decided as by the
/// administrator's check alone.
pub proof fn admin_may_do_what_guests_may(rules: EmailRules, login: Option<Seq<char>>)
    ensures
        rules.admin_decision(login) is Ok ==> rules.guest_decision(login) == rules.admin_decision(
            login,
        ),
        rules.layered_decision(login) == rules.admin_decision(login),
{
}

/// Outside the environment `local` a request goes on only for a user whose address was looked
/// at: the administrator's, or, where guests may, one of the list. Without a login it is
/// answered with 401, with any other login with 403.
pub proof fn nobody_else_gets_in(rules: EmailRules, login: Option<Seq<char>>)
    requires
        !rules.local(),
    ensures
        rules.admin_decision(login) is Ok <==> login == Some(rules.admin_email),
        rules.guest_decision(login) is Ok <==> login is Some && (login->0 == rules.admin_email
            || rules.whitelist.contains(login->0)),
        rules.admin_decision(login) == Err::<Option<Seq<char>>, u16>(401) <==> login is None,
        rules.guest_decision(login) == Err::<Option<Seq<char>>, u16>(401) <==> login is None,
        rules.admin_decision(login) is Ok || login is None || rules.admin_decision(login) == Err::<
            Option<Seq<char>>,
            u16,
        >(403),
        rules.guest_decision(login) is Ok || login is None || rules.guest_decision(login) == Err::<
            Option<Seq<char>>,
            u16,
        >(403),
{
}

/// In the environment `local`, and in no other, everyone gets in unseen. Elsewhere whoever gets in
/// is known by the login that they came with.
pub proof fn users_are_known_outside_local(
    rules: EmailRules,
    access: Access,
    login: Option<Seq<char>>,
)
    ensures
        rules.env == "local"@ ==> rules.decision(access, login) == Ok::<Option<Seq<char>>, u16>(
            None,
        ),
        rules.env != "local"@ && !(access is Everyone) ==> (rules.decision(access, login) matches Ok(
            user,
        ) ==> user is Some && user == login),
        access is Everyone ==> rules.decision(access, login) is Ok,
{
}

/// Putting an address on the list of guests lets that guest join, and changes nothing for anyone
/// else and nothing about what the administrator alone may do.
pub proof fn listing_a_guest_lets_in_that_guest(
    rules: EmailRules,
    guest: Seq<char>,
    login: Option<Seq<char>>,
)
    ensures
        ({
            let listed = EmailRules {
                env: rules.env,
                admin_email: rules.admin_email,
                whitelist: rules.whitelist.push(guest),
            };
            &&& listed.guest_decision(Some(guest)) is Ok
            &&& login != Some(guest) ==> listed.guest_decision(login) == rules.guest_decision(login)
            &&& listed.admin_decision(login) == rules.admin_decision(login)
        }),
{
    let list = rules.whitelist.push(guest);
    assert(list[rules.whitelist.len() as int] == guest);
    assert(list.contains(guest));
    if login is Some && login != Some(guest) {
        let email = login->0;
        if rules.whitelist.contains(email) {
            let i = choose|i: int| 0 <= i < rules.whitelist.len() && rules.whitelist[i] == email;
            assert(list[i] == email);
        }
        if list.contains(email) {
            let i = choose|i: int| 0 <= i < list.len() && list[i] == email;
            assert(rules.whitelist[i] == email);
        }
    }
}

} // verus!
