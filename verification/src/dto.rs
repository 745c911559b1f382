//! The requests and answers of the HTTP and gRPC front ends, and the rules
//! each request must meet.
use vstd::prelude::*;
use vstd::string::*;
use crate::domain::Post;
use crate::text::push_char;

verus! {

/// `s` has between `min` and `max` characters (Unicode scalar values).
pub open spec fn length_within(s: Seq<char>, min: nat, max: nat) -> bool {
    min <= s.len() && s.len() <= max
}

/// One line of the details of a rejected request: `field: message`.
pub open spec fn field_line(field: Seq<char>, message: Seq<char>) -> Seq<char> {
    field + seq![':', ' '] + message
}

/// The line for a field when its check fails, none when it holds.
pub open spec fn check_line(ok: bool, field: Seq<char>, message: Seq<char>) -> Seq<Seq<char>> {
    if ok {
        Seq::empty()
    } else {
        seq![field_line(field, message)]
    }
}

/// The lines, one per line break.
pub open spec fn join_lines(lines: Seq<Seq<char>>) -> Seq<char>
    decreases lines.len(),
{
    if lines.len() == 0 {
        Seq::empty()
    } else if lines.len() == 1 {
        lines[0]
    } else {
        join_lines(lines.drop_last()) + seq!['\n'] + lines.last()
    }
}

/// One line joins to itself; two lines join with a line break between.
pub proof fn lemma_join_one_two(a: Seq<char>, b: Seq<char>)
    ensures
        join_lines(seq![a]) == a,
        join_lines(seq![a, b]) == a + seq!['\n'] + b,
{
    assert(seq![a, b].drop_last() =~= seq![a]);
}

pub open spec fn lines_view(v: Seq<String>) -> Seq<Seq<char>> {
    v.map_values(|s: String| s@)
}

/// The result of checking a request: accepted when no line is given, else
/// rejected with the lines as details.
pub open spec fn report_result(r: Result<(), String>, lines: Seq<Seq<char>>) -> bool {
    match r {
        Ok(()) => lines.len() == 0,
        Err(d) => lines.len() > 0 && d@ == join_lines(lines),
    }
}

/// `validator`'s email check (the HTML5 form of an address, with its
/// length limits and international domain names).
pub uninterp spec fn email_valid(s: Seq<char>) -> bool;

/// `validator::ValidateEmail::validate_email` on a string. Claimed: the
/// result is a function of the text, and an address that is empty or has no
/// `@` is refused (its first check).
#[verifier::external_body]
fn check_email(s: &str) -> (r: bool)
    ensures
        r == email_valid(s@),
        r ==> s@.len() > 0 && s@.contains('@'),
{
    validator::ValidateEmail::validate_email(&s)
}

/// Collects the lines of the checks that fail.
struct Report {
    lines: Vec<String>,
}

impl Report {
    fn new() -> (r: Report)
        ensures
            lines_view(r.lines@) == Seq::<Seq<char>>::empty(),
    {
        let r = Report { lines: Vec::new() };
        assert(lines_view(r.lines@) =~= Seq::<Seq<char>>::empty());
        r
    }

    fn check(&mut self, ok: bool, field: &str, message: &str)
        ensures
            lines_view(final(self).lines@) == lines_view(old(self).lines@) + check_line(ok, field@, message@),
    {
        let ghost before = lines_view(self.lines@);
        if !ok {
            let mut line = String::from_str(field);
            push_char(&mut line, ':');
            push_char(&mut line, ' ');
            line.append(message);
            assert(line@ =~= field_line(field@, message@));
            self.lines.push(line);
            assert(lines_view(self.lines@) =~= before + check_line(ok, field@, message@));
        } else {
            assert(before + check_line(ok, field@, message@) =~= before);
        }
    }

    fn finish(self) -> (r: Result<(), String>)
        ensures
            report_result(r, lines_view(self.lines@)),
    {
        let n = self.lines.len();
        if n == 0 {
            return Ok(());
        }
        let ghost lv = lines_view(self.lines@);
        let mut out = String::new();
        let mut i: usize = 0;
        while i < n
            invariant
                n == self.lines@.len(),
                lv == lines_view(self.lines@),
                i <= n,
                out@ == join_lines(lv.take(i as int)),
            decreases n - i,
        {
            assert(lv.take(i + 1).drop_last() =~= lv.take(i as int));
            assert(lv.take(i + 1).last() == self.lines@[i as int]@);
            if i > 0 {
                push_char(&mut out, '\n');
            } else {
                assert(out@ =~= Seq::<char>::empty());
            }
            out.append(self.lines[i].as_str());
            proof {
                if i == 0 {
                    assert(out@ =~= lv.take(1)[0]);
                }
            }
            i = i + 1;
        }
        assert(lv.take(n as int) =~= lv);
        Err(out)
    }
}

/// A login.
#[derive(Debug)]
pub struct LoginRequest {
    pub username: String,
    pub password: String,
}

impl LoginRequest {
    /// The lines of the checks the login fails: the user name must not be
    /// empty, the password must have 8 to 256 characters.
    pub open spec fn check_lines(&self) -> Seq<Seq<char>> {
        check_line(self.username@.len() >= 1, "username"@, "username min length is 1"@)
            + check_line(
            length_within(self.password@, 8, 256),
            "password"@,
            "password length must be between 8 and 256"@,
        )
    }

    pub fn validate(&self) -> (r: Result<(), String>)
        ensures
            report_result(r, self.check_lines()),
            r is Ok <==> (self.username@.len() >= 1 && 8 <= self.password@.len() <= 256),
            r matches Err(d) ==> {
                &&& (self.username@.len() < 1 && 8 <= self.password@.len() <= 256) ==> d@ == "username: username min length is 1"@
                &&& (self.username@.len() >= 1 && !(8 <= self.password@.len() <= 256)) ==> d@
                    == "password: password length must be between 8 and 256"@
                &&& (self.username@.len() < 1 && !(8 <= self.password@.len() <= 256)) ==> d@
                    == "username: username min length is 1\npassword: password length must be between 8 and 256"@
            },
    {
        proof {
            lemma_login_checks(*self);
        }
        let mut report = Report::new();
        report.check(self.username.as_str().unicode_len() >= 1, "username", "username min length is 1");
        let p = self.password.as_str().unicode_len();
        report.check(8 <= p && p <= 256, "password", "password length must be between 8 and 256");
        assert(lines_view(report.lines@) =~= self.check_lines());
        report.finish()
    }
}

/// A registration.
#[derive(Debug)]
pub struct RegisterRequest {
    pub username: String,
    pub email: String,
    pub password: String,
}

impl RegisterRequest {
    /// The lines of the checks the registration fails: a user name of 1 to
    /// 256 characters, a valid email address, a password of 8 to 256
    /// characters.
    pub open spec fn check_lines(&self) -> Seq<Seq<char>> {
        check_line(
            length_within(self.username@, 1, 256),
            "username"@,
            "username length must be between 1 and 256"@,
        ) + check_line(email_valid(self.email@), "email"@, "invalid email"@) + check_line(
            length_within(self.password@, 8, 256),
            "password"@,
            "password length must be between 8 and 256"@,
        )
    }

    pub fn validate(&self) -> (r: Result<(), String>)
        ensures
            report_result(r, self.check_lines()),
            r is Ok <==> (1 <= self.username@.len() <= 256 && email_valid(self.email@)
                && 8 <= self.password@.len() <= 256),
    {
        let mut report = Report::new();
        let u = self.username.as_str().unicode_len();
        report.check(1 <= u && u <= 256, "username", "username length must be between 1 and 256");
        report.check(check_email(self.email.as_str()), "email", "invalid email");
        let p = self.password.as_str().unicode_len();
        report.check(8 <= p && p <= 256, "password", "password length must be between 8 and 256");
        assert(lines_view(report.lines@) =~= self.check_lines());
        report.finish()
    }
}

/// A post to create.
#[derive(Debug)]
pub struct CreatePostRequest {
    pub title: String,
    pub content: String,
}

impl CreatePostRequest {
    /// The lines of the checks the post fails: a title of 1 to 256
    /// characters and a content of 1 to 65636 characters.
    pub open spec fn check_lines(&self) -> Seq<Seq<char>> {
        check_line(length_within(self.title@, 1, 256), "title"@, "length must be between 1 and 256"@)
            + check_line(
            length_within(self.content@, 1, 65636),
            "content"@,
            "length must be between 1 and 65636"@,
        )
    }

    pub fn validate(&self) -> (r: Result<(), String>)
        ensures
            report_result(r, self.check_lines()),
            r is Ok <==> (1 <= self.title@.len() <= 256 && 1 <= self.content@.len() <= 65636),
            r matches Err(d) ==> {
                &&& (!(1 <= self.title@.len() <= 256) && 1 <= self.content@.len() <= 65636) ==> d@
                    == "title: length must be between 1 and 256"@
                &&& (1 <= self.title@.len() <= 256 && !(1 <= self.content@.len() <= 65636)) ==> d@
                    == "content: length must be between 1 and 65636"@
                &&& (!(1 <= self.title@.len() <= 256) && !(1 <= self.content@.len() <= 65636)) ==> d@
                    == "title: length must be between 1 and 256\ncontent: length must be between 1 and 65636"@
            },
    {
        proof {
            lemma_post_checks(self.title@, self.content@);
        }
        let mut report = Report::new();
        let t = self.title.as_str().unicode_len();
        report.check(1 <= t && t <= 256, "title", "length must be between 1 and 256");
        let c = self.content.as_str().unicode_len();
        report.check(1 <= c && c <= 65636, "content", "length must be between 1 and 65636");
        assert(lines_view(report.lines@) =~= self.check_lines());
        report.finish()
    }
}

/// New texts for a post; a text that is absent stays as it is.
#[derive(Debug)]
pub struct UpdatePostRequest {
    pub title: Option<String>,
    pub content: Option<String>,
}

impl UpdatePostRequest {
    /// The lines of the checks the update fails: a title that is given
    /// must have 1 to 256 characters, a content that is given 1 to 65636.
    pub open spec fn check_lines(&self) -> Seq<Seq<char>> {
        check_line(
            match self.title {
                Some(t) => length_within(t@, 1, 256),
                None => true,
            },
            "title"@,
            "length must be between 1 and 256"@,
        ) + check_line(
            match self.content {
                Some(c) => length_within(c@, 1, 65636),
                None => true,
            },
            "content"@,
            "length must be between 1 and 65636"@,
        )
    }

    pub fn validate(&self) -> (r: Result<(), String>)
        ensures
            report_result(r, self.check_lines()),
            ({
                let title_ok = match self.title { Some(t) => 1 <= t@.len() <= 256, None => true };
                let content_ok = match self.content { Some(c) => 1 <= c@.len() <= 65636, None => true };
                &&& r is Ok <==> (title_ok && content_ok)
                &&& r matches Err(d) ==> {
                    &&& (!title_ok && content_ok) ==> d@ == "title: length must be between 1 and 256"@
                    &&& (title_ok && !content_ok) ==> d@ == "content: length must be between 1 and 65636"@
                    &&& (!title_ok && !content_ok) ==> d@
                        == "title: length must be between 1 and 256\ncontent: length must be between 1 and 65636"@
                }
            }),
    {
        proof {
            lemma_update_checks(*self);
        }
        let mut report = Report::new();
        let title_ok = match &self.title {
            Some(t) => {
                let n = t.as_str().unicode_len();
                1 <= n && n <= 256
            },
            None => true,
        };
        report.check(title_ok, "title", "length must be between 1 and 256");
        let content_ok = match &self.content {
            Some(c) => {
                let n = c.as_str().unicode_len();
                1 <= n && n <= 65636
            },
            None => true,
        };
        report.check(content_ok, "content", "length must be between 1 and 65636");
        assert(lines_view(report.lines@) =~= self.check_lines());
        report.finish()
    }
}

/// The public data of a user.
#[derive(Debug)]
pub struct UserInfo {
    pub id: u32,
    pub username: String,
    pub email: String,
}

/// The answer to a registration or a login.
#[derive(Debug)]
pub struct AuthResponse {
    pub token: String,
    pub user: UserInfo,
}

/// Paging of the post list.
#[derive(Debug)]
pub struct PaginactionQuery {
    pub offset: Option<u32>,
    pub limit: Option<u8>,
}

impl PaginactionQuery {
    /// Every offset and limit of their types is accepted.
    pub fn validate(&self) -> (r: Result<(), String>)
        ensures
            r is Ok,
    {
        Ok(())
    }
}

/// A page of posts.
#[derive(Debug)]
pub struct PostListResponse {
    posts: Vec<Post>,
    total: u32,
    limit: u8,
}

/// A login is accepted exactly when its user name is not empty and its
/// password has 8 to 256 characters; each failing check gives its line, the
/// user name's first.
pub proof fn lemma_login_checks(req: LoginRequest)
    ensures
        req.check_lines().len() == 0 <==> (req.username@.len() >= 1 && 8 <= req.password@.len() <= 256),
        (req.username@.len() < 1 && 8 <= req.password@.len() <= 256) ==> join_lines(req.check_lines())
            == "username: username min length is 1"@,
        (req.username@.len() >= 1 && !(8 <= req.password@.len() <= 256)) ==> join_lines(req.check_lines())
            == "password: password length must be between 8 and 256"@,
        (req.username@.len() < 1 && !(8 <= req.password@.len() <= 256)) ==> join_lines(req.check_lines())
            == "username: username min length is 1\npassword: password length must be between 8 and 256"@,
{
    reveal_strlit("username");
    reveal_strlit("username min length is 1");
    reveal_strlit("password");
    reveal_strlit("password length must be between 8 and 256");
    reveal_strlit("username: username min length is 1");
    reveal_strlit("password: password length must be between 8 and 256");
    reveal_strlit("username: username min length is 1\npassword: password length must be between 8 and 256");
    let a = field_line("username"@, "username min length is 1"@);
    let b = field_line("password"@, "password length must be between 8 and 256"@);
    lemma_join_one_two(a, b);
    assert(a =~= "username: username min length is 1"@);
    assert(b =~= "password: password length must be between 8 and 256"@);
    assert(a + seq!['\n'] + b =~= "username: username min length is 1\npassword: password length must be between 8 and 256"@);
    if req.username@.len() < 1 && 8 <= req.password@.len() <= 256 {
        assert(req.check_lines() =~= seq![a]);
    }
    if req.username@.len() >= 1 && !(8 <= req.password@.len() <= 256) {
        assert(req.check_lines() =~= seq![b]);
    }
    if req.username@.len() < 1 && !(8 <= req.password@.len() <= 256) {
        assert(req.check_lines() =~= seq![a, b]);
    }
}

/// The lines of a post's title and content checks: a title must have 1 to
/// 256 characters, a content 1 to 65636; each failing check gives its line,
/// the title's first.
pub proof fn lemma_post_lines(title_ok: bool, content_ok: bool)
    ensures
        ({
            let lines = check_line(title_ok, "title"@, "length must be between 1 and 256"@)
                + check_line(content_ok, "content"@, "length must be between 1 and 65636"@);
            &&& lines.len() == 0 <==> (title_ok && content_ok)
            &&& (!title_ok && content_ok) ==> join_lines(lines) == "title: length must be between 1 and 256"@
            &&& (title_ok && !content_ok) ==> join_lines(lines) == "content: length must be between 1 and 65636"@
            &&& (!title_ok && !content_ok) ==> join_lines(lines)
                == "title: length must be between 1 and 256\ncontent: length must be between 1 and 65636"@
        }),
{
    reveal_strlit("title");
    reveal_strlit("content");
    reveal_strlit("length must be between 1 and 256");
    reveal_strlit("length must be between 1 and 65636");
    reveal_strlit("title: length must be between 1 and 256");
    reveal_strlit("content: length must be between 1 and 65636");
    reveal_strlit("title: length must be between 1 and 256\ncontent: length must be between 1 and 65636");
    let a = field_line("title"@, "length must be between 1 and 256"@);
    let b = field_line("content"@, "length must be between 1 and 65636"@);
    lemma_join_one_two(a, b);
    assert(a =~= "title: length must be between 1 and 256"@);
    assert(b =~= "content: length must be between 1 and 65636"@);
    assert(a + seq!['\n'] + b =~= "title: length must be between 1 and 256\ncontent: length must be between 1 and 65636"@);
    let lines = check_line(title_ok, "title"@, "length must be between 1 and 256"@)
        + check_line(content_ok, "content"@, "length must be between 1 and 65636"@);
    if !title_ok && content_ok {
        assert(lines =~= seq![a]);
    }
    if title_ok && !content_ok {
        assert(lines =~= seq![b]);
    }
    if !title_ok && !content_ok {
        assert(lines =~= seq![a, b]);
    }
}

/// A new post is accepted exactly when its title has 1 to 256 characters and
/// its content 1 to 65636.
pub proof fn lemma_post_checks(title: Seq<char>, content: Seq<char>)
    ensures
        ({
            let req_lines = check_line(length_within(title, 1, 256), "title"@, "length must be between 1 and 256"@)
                + check_line(length_within(content, 1, 65636), "content"@, "length must be between 1 and 65636"@);
            let title_ok = 1 <= title.len() <= 256;
            let content_ok = 1 <= content.len() <= 65636;
            &&& req_lines.len() == 0 <==> (title_ok && content_ok)
            &&& (!title_ok && content_ok) ==> join_lines(req_lines) == "title: length must be between 1 and 256"@
            &&& (title_ok && !content_ok) ==> join_lines(req_lines) == "content: length must be between 1 and 65636"@
            &&& (!title_ok && !content_ok) ==> join_lines(req_lines)
                == "title: length must be between 1 and 256\ncontent: length must be between 1 and 65636"@
        }),
{
    lemma_post_lines(1 <= title.len() <= 256, 1 <= content.len() <= 65636);
}

/// An update is accepted exactly when a title it gives has 1 to 256
/// characters and a content it gives 1 to 65636; absent texts always pass.
pub proof fn lemma_update_checks(req: UpdatePostRequest)
    ensures
        ({
            let title_ok = match req.title { Some(t) => 1 <= t@.len() <= 256, None => true };
            let content_ok = match req.content { Some(c) => 1 <= c@.len() <= 65636, None => true };
            &&& req.check_lines().len() == 0 <==> (title_ok && content_ok)
            &&& (!title_ok && content_ok) ==> join_lines(req.check_lines()) == "title: length must be between 1 and 256"@
            &&& (title_ok && !content_ok) ==> join_lines(req.check_lines()) == "content: length must be between 1 and 65636"@
            &&& (!title_ok && !content_ok) ==> join_lines(req.check_lines())
                == "title: length must be between 1 and 256\ncontent: length must be between 1 and 65636"@
        }),
{
    let title_ok = match req.title { Some(t) => 1 <= t@.len() <= 256, None => true };
    let content_ok = match req.content { Some(c) => 1 <= c@.len() <= 65636, None => true };
    lemma_post_lines(title_ok, content_ok);
}

} // verus!
