//! The user records of the lookup service: how a query names the column to
//! filter by, and how the statements are made from their templates.

use vstd::prelude::*;
use vstd::string::*;

verus! {

/// A stored user.
#[derive(Debug)]
pub struct User {
    pub username: String,
    pub pwd: String,
    pub email: String,
    pub phone: String,
}

/// The query of a lookup: `column-value` in one string.
#[derive(Debug)]
pub struct Usersign {
    pub user: String,
}

/// The column to filter by, with the value to look for.
#[derive(Debug)]
pub enum Filteruser {
    Username(String),
    Email(String),
    PhoneNumber(String),
}

/// A filter as plain values.
pub enum FilterView {
    Username(Seq<char>),
    Email(Seq<char>),
    PhoneNumber(Seq<char>),
}

impl View for Filteruser {
    type V = FilterView;

    open spec fn view(&self) -> FilterView {
        match *self {
            Filteruser::Username(s) => FilterView::Username(s@),
            Filteruser::Email(s) => FilterView::Email(s@),
            Filteruser::PhoneNumber(s) => FilterView::PhoneNumber(s@),
        }
    }
}

impl FilterView {
    /// The name of the column in the table.
    pub open spec fn column(self) -> Seq<char> {
        match self {
            FilterView::Username(_) => "username"@,
            FilterView::Email(_) => "email"@,
            FilterView::PhoneNumber(_) => "phone"@,
        }
    }

    /// The value to look for.
    pub open spec fn value(self) -> Seq<char> {
        match self {
            FilterView::Username(v) => v,
            FilterView::Email(v) => v,
            FilterView::PhoneNumber(v) => v,
        }
    }
}

/// Where the piece that starts at `from` ends: at the next `-`, or at the
/// end of the text.
pub open spec fn piece_end(s: Seq<char>, from: int) -> int
    decreases s.len() - from,
{
    if from < 0 || from >= s.len() || s[from] == '-' {
        from
    } else {
        piece_end(s, from + 1)
    }
}

/// The first piece of a query: the name of the field.
pub open spec fn field_of(s: Seq<char>) -> Seq<char> {
    s.subrange(0, piece_end(s, 0))
}

/// The second piece of a query, empty where there is none. Further pieces
/// are not read.
pub open spec fn value_of(s: Seq<char>) -> Seq<char> {
    let first = piece_end(s, 0);
    if first < s.len() {
        s.subrange(first + 1, piece_end(s, first + 1))
    } else {
        Seq::empty()
    }
}

/// The filter that a query asks for, if its field is one of the three
/// known ones.
pub open spec fn filter_of(s: Seq<char>) -> Option<FilterView> {
    if field_of(s) == "username"@ {
        Some(FilterView::Username(value_of(s)))
    } else if field_of(s) == "email"@ {
        Some(FilterView::Email(value_of(s)))
    } else if field_of(s) == "phone"@ {
        Some(FilterView::PhoneNumber(value_of(s)))
    } else {
        None
    }
}

fn find_piece_end(s: &str, from: usize) -> (end: usize)
    requires
        from <= s@.len(),
    ensures
        end == piece_end(s@, from as int),
        from <= end <= s@.len(),
{
    let n = s.unicode_len();
    let mut i = from;
    while i < n && s.get_char(i) != '-'
        invariant
            from <= i <= n,
            n == s@.len(),
            piece_end(s@, i as int) == piece_end(s@, from as int),
        decreases n - i,
    {
        i = i + 1;
    }
    i
}

impl User {
    /// The record that answers a query whose field is not known.
    pub fn not_found() -> (u: User)
        ensures
            u.username@ == "not found"@,
            u.pwd@ == "not found"@,
            u.email@ == "not found"@,
            u.phone@ == "not found"@,
    {
        User {
            username: String::from_str("not found"),
            pwd: String::from_str("not found"),
            email: String::from_str("not found"),
            phone: String::from_str("not found"),
        }
    }
}

impl Filteruser {
    /// The name of the column in the table.
    pub fn column(&self) -> (c: &'static str)
        ensures
            c@ == self@.column(),
    {
        match self {
            Filteruser::Username(_) => "username",
            Filteruser::Email(_) => "email",
            Filteruser::PhoneNumber(_) => "phone",
        }
    }

    /// The value to look for.
    pub fn value(&self) -> (v: &str)
        ensures
            v@ == self@.value(),
    {
        match self {
            Filteruser::Username(v) => v.as_str(),
            Filteruser::Email(v) => v.as_str(),
            Filteruser::PhoneNumber(v) => v.as_str(),
        }
    }
}

/// Reads a query of the form `field-value`. The field is what stands
/// before the first `-`; the value is what stands between the first `-` and
/// the second, or the empty string. A field other than `username`, `email`
/// and `phone` gives no filter.
pub fn parse_filter(query: &Usersign) -> (r: Option<Filteruser>)
    ensures
        match r {
            Some(f) => filter_of(query.user@) == Some(f@),
            None => filter_of(query.user@) is None,
        },
{
    let text = query.user.as_str();
    let n = text.unicode_len();
    let first = find_piece_end(text, 0);
    let value = if first < n {
        let second = find_piece_end(text, first + 1);
        String::from_str(text.substring_char(first + 1, second))
    } else {
        String::new()
    };
    let field = String::from_str(text.substring_char(0, first));
    if field == String::from_str("username") {
        Some(Filteruser::Username(value))
    } else if field == String::from_str("email") {
        Some(Filteruser::Email(value))
    } else if field == String::from_str("phone") {
        Some(Filteruser::PhoneNumber(value))
    } else {
        None
    }
}

/// The records to answer with where no lookup is made: the one placeholder
/// record if the query names no known field, nothing to add otherwise.
pub fn placeholder(filter: &Option<Filteruser>) -> (users: Vec<User>)
    ensures
        filter is Some ==> users@.len() == 0,
        filter is None ==> users@.len() == 1 && users@[0].username@ == "not found"@
            && users@[0].pwd@ == "not found"@ && users@[0].email@ == "not found"@
            && users@[0].phone@ == "not found"@,
{
    let mut users: Vec<User> = Vec::new();
    if filter.is_none() {
        users.push(User::not_found());
    }
    users
}

/// The text with every occurrence of `pattern` replaced by `with`: the
/// occurrences are found from left to right and do not overlap.
pub open spec fn replaced(text: Seq<char>, pattern: Seq<char>, with: Seq<char>) -> Seq<char>
    decreases text.len(),
{
    if pattern.len() == 0 || text.len() < pattern.len() {
        text
    } else if text.subrange(0, pattern.len() as int) == pattern {
        with + replaced(text.skip(pattern.len() as int), pattern, with)
    } else {
        seq![text[0]] + replaced(text.skip(1), pattern, with)
    }
}

/// `str::replace` with a string as pattern: a new string in which each
/// match of the pattern, found from the left and not overlapping an earlier
/// one, is replaced. The empty pattern, which matches between all
/// characters, is left out.
#[verifier::external_body]
fn replace_each(text: &str, pattern: &str, with: &str) -> (r: String)
    requires
        pattern@.len() > 0,
    ensures
        r@ == replaced(text@, pattern@, with@),
{
    text.replace(pattern, with)
}

/// The statement of a lookup: the template with the column, the value and
/// the list of fields put in, in that order.
pub open spec fn select_statement_of(
    template: Seq<char>,
    filter: FilterView,
    table_fields: Seq<char>,
) -> Seq<char> {
    replaced(
        replaced(replaced(template, "$filterrow"@, filter.column()), "$user_sign"@, filter.value()),
        "$table_fields"@,
        table_fields,
    )
}

/// Makes the statement of a lookup from its template: `$filterrow` becomes
/// the column, then `$user_sign` the value, then `$table_fields` the list
/// of fields.
pub fn select_statement(template: &str, filter: &Filteruser, table_fields: &str) -> (stmt: String)
    ensures
        stmt@ == select_statement_of(template@, filter@, table_fields@),
{
    proof {
        reveal_strlit("$filterrow");
        reveal_strlit("$user_sign");
        reveal_strlit("$table_fields");
    }
    let with_column = replace_each(template, "$filterrow", filter.column());
    let with_value = replace_each(with_column.as_str(), "$user_sign", filter.value());
    replace_each(with_value.as_str(), "$table_fields", table_fields)
}

/// Makes the statement that stores a user from its template:
/// `$table_fields` becomes the list of fields.
pub fn insert_statement(template: &str, table_fields: &str) -> (stmt: String)
    ensures
        stmt@ == replaced(template@, "$table_fields"@, table_fields@),
{
    proof {
        reveal_strlit("$table_fields");
    }
    replace_each(template, "$table_fields", table_fields)
}

/// Why a request to the user service failed. The three failures of the
/// database layer carry their message.
#[derive(Debug)]
pub enum MyError {
    NotFound,
    PGError(String),
    PGMError(String),
    PoolError(String),
}

impl MyError {
    pub open spec fn spec_status(self) -> u16 {
        match self {
            MyError::NotFound => 404,
            _ => 500,
        }
    }

    /// The status of the response: 404 where nothing was found, 500 for
    /// every failure of the database layer.
    pub fn status(&self) -> (code: u16)
        ensures
            code == self.spec_status(),
    {
        match self {
            MyError::NotFound => 404,
            _ => 500,
        }
    }

    /// The message of a failure of the database layer; `NotFound` has none.
    pub fn detail(&self) -> (text: Option<&str>)
        ensures
            match *self {
                MyError::NotFound => text is None,
                MyError::PGError(msg) => text is Some && text->Some_0@ == msg@,
                MyError::PGMError(msg) => text is Some && text->Some_0@ == msg@,
                MyError::PoolError(msg) => text is Some && text->Some_0@ == msg@,
            },
    {
        match self {
            MyError::NotFound => None,
            MyError::PGError(msg) => Some(msg.as_str()),
            MyError::PGMError(msg) => Some(msg.as_str()),
            MyError::PoolError(msg) => Some(msg.as_str()),
        }
    }

    /// The body of the response: the message of a failed connection pool;
    /// every other error is answered without a body.
    pub fn body(&self) -> (text: Option<&str>)
        ensures
            match *self {
                MyError::PoolError(msg) => text is Some && text->Some_0@ == msg@,
                _ => text is None,
            },
    {
        match self {
            MyError::PoolError(msg) => Some(msg.as_str()),
            _ => None,
        }
    }
}

/// The user that a stored statement returned: the last row, or `NotFound`
/// where it returned none.
pub fn stored_user(rows: Vec<User>) -> (r: Result<User, MyError>)
    ensures
        rows@.len() == 0 ==> r is Err && r->Err_0 is NotFound,
        rows@.len() > 0 ==> r is Ok && r->Ok_0 == rows@.last(),
{
    let mut rows = rows;
    match rows.pop() {
        Some(user) => Ok(user),
        None => Err(MyError::NotFound),
    }
}

} // verus!
