//! Registration and login.
use vstd::prelude::*;
use vstd::string::*;
use crate::data::RepositoryError;
use crate::data::user_repository::{Field, FieldView, fields_view};
use crate::domain::{User, UserError, ValidationError};
use crate::dto::{AuthResponse, LoginRequest, RegisterRequest, UserInfo, join_lines};
use crate::jwt::{ClaimsView, JwtService, issued_for};
use crate::password::{
    PasswordCheck, argon2_accepts, check_password, hash_password, lemma_utf8_len_bound,
    password_matches, phc_error_text, phc_well_formed,
};

verus! {

/// Registers users and logs them in.
#[derive(Debug)]
pub struct AuthService {}

/// A registration waiting for the lookup of an existing user.
#[derive(Debug)]
pub struct PendingRegistration {
    data: RegisterRequest,
}

impl PendingRegistration {
    /// A pending registration passed its checks, so its password has at most
    /// 256 characters.
    #[verifier::type_invariant]
    spec fn checked(self) -> bool {
        self.data.password@.len() <= 256
    }

    pub closed spec fn username(&self) -> Seq<char> {
        self.data.username@
    }

    pub closed spec fn email(&self) -> Seq<char> {
        self.data.email@
    }

    pub closed spec fn password(&self) -> Seq<char> {
        self.data.password@
    }
}

/// What a registration needs next.
#[derive(Debug)]
pub enum RegisterStep {
    /// Look up a user who has one of these fields (the email, the user name).
    Lookup { pending: PendingRegistration, fields: Vec<Field> },
    /// Store this user; its password is the hash of the one given.
    Create { request: RegisterRequest },
    /// The registration is over.
    Finish(Result<AuthResponse, UserError>),
}

/// A login waiting for the user it names.
#[derive(Debug)]
pub struct PendingLogin {
    data: LoginRequest,
}

impl PendingLogin {
    pub closed spec fn username(&self) -> Seq<char> {
        self.data.username@
    }

    pub closed spec fn password(&self) -> Seq<char> {
        self.data.password@
    }
}

/// What a login needs next.
#[derive(Debug)]
pub enum LoginStep {
    /// Find the user with this name.
    FindUser { pending: PendingLogin, username: String },
    /// The login is over.
    Finish(Result<AuthResponse, UserError>),
}

/// The answer for a user: a token issued with `jwt` for the user's id and
/// name, and the user's public data.
pub open spec fn answers_user(resp: AuthResponse, user: User, jwt: JwtService) -> bool {
    &&& resp.user.id == user.id as u32
    &&& resp.user.username@ == user.username@
    &&& resp.user.email@ == user.email@
    &&& exists|c: ClaimsView|
        #[trigger] issued_for(resp.token@, jwt.secret(), c, jwt.ttl()) && c.user_id == user.id as u32
            && c.username == user.username@
}

/// The password given at login is refused against the stored hash.
pub open spec fn login_rejects_password(password: Seq<char>, stored: Seq<char>) -> bool {
    phc_well_formed(stored) && !argon2_accepts(password, stored)
}

impl AuthService {
    pub fn new() -> (r: Self) {
        AuthService {}
    }

    /// Issues the token for a user and makes the answer.
    fn answer(user: User, jwt: &JwtService) -> (r: Result<AuthResponse, crate::jwt::JwtError>)
        ensures
            r matches Ok(resp) ==> answers_user(resp, user, *jwt),
            r matches Err(e) ==> e is ExpGenError,
    {
        let id = user.id as u32;
        let token = match jwt.generate_token(id, user.username.as_str()) {
            Ok(t) => t,
            Err(e) => {
                return Err(e);
            },
        };
        let ghost u = user;
        let ghost c = choose|c: ClaimsView|
            #[trigger] issued_for(token@, jwt.secret(), c, jwt.ttl()) && c.user_id == id
                && c.username == user.username@;
        assert(issued_for(token@, jwt.secret(), c, jwt.ttl()));
        let resp = AuthResponse {
            token,
            user: UserInfo { id, username: user.username, email: user.email },
        };
        assert(issued_for(resp.token@, jwt.secret(), c, jwt.ttl()));
        Ok(resp)
    }

    /// Starts a registration: a request that fails its checks is refused
    /// with `data is invalid` and the details; otherwise the existing users
    /// with the same email or name are looked up.
    pub fn register_user(&self, data: RegisterRequest) -> (r: RegisterStep)
        ensures
            data.check_lines().len() == 0 ==> (r matches RegisterStep::Lookup { pending, fields }
                && pending.username() == data.username@ && pending.email() == data.email@
                && pending.password() == data.password@
                && fields_view(fields@) == seq![FieldView::Email(data.email@), FieldView::Username(data.username@)]),
            data.check_lines().len() > 0 ==> (r matches RegisterStep::Finish(Err(UserError::Validation(v)))
                && v.error@ == "data is invalid"@ && v.details@ == join_lines(data.check_lines())),
    {
        match data.validate() {
            Err(details) => RegisterStep::Finish(Err(UserError::Validation(ValidationError {
                error: String::from_str("data is invalid"),
                details,
            }))),
            Ok(()) => {
                let mut fields: Vec<Field> = Vec::new();
                fields.push(Field::Email(data.email.clone()));
                fields.push(Field::Username(data.username.clone()));
                assert(fields_view(fields@) =~= seq![FieldView::Email(data.email@), FieldView::Username(data.username@)]);
                RegisterStep::Lookup { pending: PendingRegistration { data }, fields }
            },
        }
    }

    /// Goes on after the lookup: an existing user refuses the registration,
    /// a failed lookup is an unexpected failure; when no user was found the
    /// password is hashed and the user is to be stored with the hash.
    pub fn register_on_lookup(&self, pending: PendingRegistration, lookup: Result<User, RepositoryError>) -> (r: RegisterStep)
        ensures
            lookup is Ok ==> (r matches RegisterStep::Finish(Err(UserError::UserAlreadyExists(m)))
                && m@ == "user("@ + pending.username() + ") with email "@ + pending.email() + " is exist"@),
            lookup matches Err(RepositoryError::InternalError(e)) ==> (r matches RegisterStep::Finish(Err(UserError::UnexpectedFailure(m))) && m@ == e@),
            lookup matches Err(RepositoryError::NotFound(_)) ==> (
                r matches RegisterStep::Create { request } && request.username@ == pending.username()
                    && request.email@ == pending.email()
                    && password_matches(pending.password(), request.password@)
                    && "$argon2id$v=19$m=19456,t=2,p=1$"@.is_prefix_of(request.password@)),
            !(r is Lookup),
    {
        match lookup {
            Ok(_) => {
                let mut m = String::from_str("user(");
                m.append(pending.data.username.as_str());
                m.append(") with email ");
                m.append(pending.data.email.as_str());
                m.append(" is exist");
                RegisterStep::Finish(Err(UserError::UserAlreadyExists(m)))
            },
            Err(RepositoryError::InternalError(e)) => RegisterStep::Finish(Err(UserError::UnexpectedFailure(e))),
            Err(RepositoryError::NotFound(_)) => {
                proof {
                    use_type_invariant(&pending);
                    lemma_utf8_len_bound(pending.data.password@);
                }
                let data = pending.data;
                match hash_password(data.password.as_str()) {
                    Err(e) => RegisterStep::Finish(Err(UserError::UnexpectedFailure(e))),
                    Ok(hash) => RegisterStep::Create {
                        request: RegisterRequest { username: data.username, email: data.email, password: hash },
                    },
                }
            },
        }
    }

    /// Finishes a registration once the user is stored: the answer carries a
    /// token for the new user. A failed store or a failed token is an
    /// unexpected failure.
    pub fn register_on_created(&self, created: Result<User, String>, jwt: &JwtService) -> (r: Result<AuthResponse, UserError>)
        ensures
            created matches Err(e) ==> (r matches Err(UserError::UnexpectedFailure(m)) && m@ == e@),
            created matches Ok(user) ==> (
                (r matches Ok(resp) && answers_user(resp, user, *jwt))
                || (r matches Err(UserError::UnexpectedFailure(m))
                    && exists|e: crate::jwt::JwtError| e is ExpGenError && m@ == "internal error: "@ + e.message_text())),
    {
        match created {
            Err(e) => Err(UserError::UnexpectedFailure(e)),
            Ok(user) => match Self::answer(user, jwt) {
                Ok(resp) => Ok(resp),
                Err(e) => {
                    let m = String::from_str("internal error: ").concat(e.message().as_str());
                    Err(UserError::UnexpectedFailure(m))
                },
            },
        }
    }

    /// Starts a login: a request that fails its checks is refused with
    /// `data is not valid` and the details; otherwise the user is looked up
    /// by name.
    pub fn login_user(&self, data: LoginRequest) -> (r: LoginStep)
        ensures
            data.check_lines().len() == 0 ==> (r matches LoginStep::FindUser { pending, username }
                && username@ == data.username@ && pending.username() == data.username@
                && pending.password() == data.password@),
            data.check_lines().len() > 0 ==> (r matches LoginStep::Finish(Err(UserError::Validation(v)))
                && v.error@ == "data is not valid"@ && v.details@ == join_lines(data.check_lines())),
    {
        match data.validate() {
            Err(details) => LoginStep::Finish(Err(UserError::Validation(ValidationError {
                error: String::from_str("data is not valid"),
                details,
            }))),
            Ok(()) => {
                let username = data.username.clone();
                LoginStep::FindUser { pending: PendingLogin { data }, username }
            },
        }
    }

    /// Finishes a login once the user is looked up: an unknown user is not
    /// found, a stored hash that does not parse is an unexpected failure, a
    /// wrong password is refused; otherwise the answer carries a token for
    /// the user.
    pub fn login_on_found(&self, pending: PendingLogin, found: Result<User, String>, jwt: &JwtService) -> (r: Result<AuthResponse, UserError>)
        ensures
            found matches Err(e) ==> (r matches Err(UserError::NotFound(m))
                && m@ == "user with name "@ + pending.username() + " not found: "@ + e@),
            found matches Ok(user) ==> {
                &&& !phc_well_formed(user.password_hash@) ==> (r matches Err(UserError::UnexpectedFailure(m))
                    && m@ == phc_error_text(user.password_hash@))
                &&& login_rejects_password(pending.password(), user.password_hash@) ==> (
                    r matches Err(UserError::InvalidCredentials(m))
                    && m@ == "failed to login user "@ + pending.username())
                &&& password_matches(pending.password(), user.password_hash@) ==> (
                    (r matches Ok(resp) && answers_user(resp, user, *jwt))
                    || (r matches Err(UserError::UnexpectedFailure(m)) && m@ == "internal error"@))
            },
    {
        let user = match found {
            Err(e) => {
                let mut m = String::from_str("user with name ");
                m.append(pending.data.username.as_str());
                m.append(" not found: ");
                m.append(e.as_str());
                return Err(UserError::NotFound(m));
            },
            Ok(u) => u,
        };
        match check_password(pending.data.password.as_str(), user.password_hash.as_str()) {
            PasswordCheck::Malformed(e) => Err(UserError::UnexpectedFailure(e)),
            PasswordCheck::Rejected => {
                let m = String::from_str("failed to login user ").concat(pending.data.username.as_str());
                Err(UserError::InvalidCredentials(m))
            },
            PasswordCheck::Accepted => {
                let ghost u = user;
                match Self::answer(user, jwt) {
                    Ok(resp) => Ok(resp),
                    Err(_) => Err(UserError::UnexpectedFailure(String::from_str("internal error"))),
                }
            },
        }
    }
}

/// A user who registered with a password can log in with it: the hash that
/// registration stores is accepted, so the login is neither refused nor
/// stopped by the stored hash.
pub proof fn lemma_registered_password_logs_in(password: Seq<char>, stored: Seq<char>)
    requires
        password_matches(password, stored),
    ensures
        phc_well_formed(stored),
        !login_rejects_password(password, stored),
{
}

} // verus!
