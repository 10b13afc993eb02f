//! Participant identities: access ranks, nicknames, the canonical
//! `nick!user@host` text, and the order in which a roster lists users.

use std::cmp::Ordering;

use vstd::prelude::*;

use irc::client::data::AccessLevel as IrcLevel;

verus! {

/// A participant's rank in a channel, from highest to lowest.
#[derive(Clone, Copy, Debug, PartialEq, Eq, Structural, Hash)]
pub enum AccessLevel {
    Owner,
    Admin,
    Oper,
    HalfOp,
    Voice,
    Member,
}

/// The height of a rank: `Member` is lowest, `Owner` highest.
pub open spec fn rank(l: AccessLevel) -> nat {
    match l {
        AccessLevel::Owner => 5,
        AccessLevel::Admin => 4,
        AccessLevel::Oper => 3,
        AccessLevel::HalfOp => 2,
        AccessLevel::Voice => 1,
        AccessLevel::Member => 0,
    }
}

/// How two numbers compare.
pub open spec fn compare_nat(a: nat, b: nat) -> Ordering {
    if a < b {
        Ordering::Less
    } else if a > b {
        Ordering::Greater
    } else {
        Ordering::Equal
    }
}

/// The symbol that marks a rank in front of a nickname.
pub open spec fn symbol(l: AccessLevel) -> Seq<char> {
    match l {
        AccessLevel::Owner => seq!['~'],
        AccessLevel::Admin => seq!['&'],
        AccessLevel::Oper => seq!['@'],
        AccessLevel::HalfOp => seq!['%'],
        AccessLevel::Voice => seq!['+'],
        AccessLevel::Member => Seq::empty(),
    }
}

impl AccessLevel {
    /// Compares two ranks: the higher rank is the greater.
    pub fn cmp(&self, other: &AccessLevel) -> (r: Ordering)
        ensures
            r == compare_nat(rank(*self), rank(*other)),
    {
        if *self == *other {
            return Ordering::Equal;
        }
        match *self {
            AccessLevel::Owner => Ordering::Greater,
            AccessLevel::Admin => {
                if *other == AccessLevel::Owner {
                    Ordering::Less
                } else {
                    Ordering::Greater
                }
            },
            AccessLevel::Oper => {
                if *other == AccessLevel::Owner || *other == AccessLevel::Admin {
                    Ordering::Less
                } else {
                    Ordering::Greater
                }
            },
            AccessLevel::HalfOp => {
                if *other == AccessLevel::Voice || *other == AccessLevel::Member {
                    Ordering::Greater
                } else {
                    Ordering::Less
                }
            },
            AccessLevel::Voice => {
                if *other == AccessLevel::Member {
                    Ordering::Greater
                } else {
                    Ordering::Less
                }
            },
            AccessLevel::Member => Ordering::Less,
        }
    }

    /// The symbol shown for the rank; empty for `Member`.
    pub fn to_string(&self) -> (r: String)
        ensures
            r@ == symbol(*self),
    {
        let s = match *self {
            AccessLevel::Owner => "~",
            AccessLevel::Admin => "&",
            AccessLevel::Oper => "@",
            AccessLevel::HalfOp => "%",
            AccessLevel::Voice => "+",
            AccessLevel::Member => "",
        };
        proof {
            reveal_strlit("~");
            reveal_strlit("&");
            reveal_strlit("@");
            reveal_strlit("%");
            reveal_strlit("+");
            reveal_strlit("");
        }
        let r = String::from_str(s);
        assert(r@ =~= symbol(*self));
        r
    }
}

/// The rank that a leading symbol marks, if it is one.
pub open spec fn rank_symbol(c: char) -> Option<AccessLevel> {
    if c == '~' {
        Some(AccessLevel::Owner)
    } else if c == '&' {
        Some(AccessLevel::Admin)
    } else if c == '@' {
        Some(AccessLevel::Oper)
    } else if c == '%' {
        Some(AccessLevel::HalfOp)
    } else if c == '+' {
        Some(AccessLevel::Voice)
    } else {
        None
    }
}

/// The higher of two ranks.
pub open spec fn higher(a: AccessLevel, b: AccessLevel) -> AccessLevel {
    if rank(a) >= rank(b) {
        a
    } else {
        b
    }
}

/// The number of rank symbols in front of the text.
pub open spec fn rank_prefix_len(s: Seq<char>) -> nat
    decreases s.len(),
{
    if s.len() > 0 && rank_symbol(s[0]) is Some {
        1 + rank_prefix_len(s.drop_first())
    } else {
        0
    }
}

/// The highest rank that the leading symbols mark; `Member` where there is none.
pub open spec fn highest_prefix_rank(s: Seq<char>) -> AccessLevel
    decreases s.len(),
{
    if s.len() > 0 && rank_symbol(s[0]) is Some {
        higher(rank_symbol(s[0])->0, highest_prefix_rank(s.drop_first()))
    } else {
        AccessLevel::Member
    }
}

/// The position of the first `c` in `s`.
pub open spec fn find_char(s: Seq<char>, c: char) -> Option<nat>
    decreases s.len(),
{
    if s.len() == 0 {
        None
    } else if s[0] == c {
        Some(0)
    } else {
        match find_char(s.drop_first(), c) {
            Some(i) => Some(i + 1),
            None => None,
        }
    }
}

/// A participant's identity as plain values.
pub struct UserView {
    pub nickname: Seq<char>,
    pub username: Option<Seq<char>>,
    pub hostname: Option<Seq<char>>,
    pub access_level: AccessLevel,
}

/// How an identity text reads: leading rank symbols give the rank; the
/// nickname runs to the first `!`; after it, the username runs to the first
/// `@` and the hostname is the rest. Without a `!` there is neither username
/// nor hostname, and without an `@` after it neither.
pub open spec fn parse_identity(s: Seq<char>) -> UserView {
    let rest = s.skip(rank_prefix_len(s) as int);
    let nickname = match find_char(rest, '!') {
        Some(i) => rest.take(i as int),
        None => rest,
    };
    let after = match find_char(rest, '!') {
        Some(i) => rest.skip(i + 1 as int),
        None => Seq::empty(),
    };
    let username = match find_char(after, '@') {
        Some(j) => Some(after.take(j as int)),
        None => None,
    };
    let hostname = match find_char(after, '@') {
        Some(j) => Some(after.skip(j + 1 as int)),
        None => None,
    };
    UserView { nickname, username, hostname, access_level: highest_prefix_rank(s) }
}

/// The canonical text: `nick`, `nick@host`, `nick!user` or `nick!user@host`.
pub open spec fn canonical_text(
    nick: Seq<char>,
    user: Option<Seq<char>>,
    host: Option<Seq<char>>,
) -> Seq<char> {
    match (user, host) {
        (None, None) => nick,
        (None, Some(h)) => nick + seq!['@'] + h,
        (Some(u), None) => nick + seq!['!'] + u,
        (Some(u), Some(h)) => nick + seq!['!'] + u + seq!['@'] + h,
    }
}

/// The display text: `nick`, `nick (host)`, `nick (user)` or `nick (user@host)`.
pub open spec fn display_text(
    nick: Seq<char>,
    user: Option<Seq<char>>,
    host: Option<Seq<char>>,
) -> Seq<char> {
    match (user, host) {
        (None, None) => nick,
        (None, Some(h)) => nick + seq![' ', '('] + h + seq![')'],
        (Some(u), None) => nick + seq![' ', '('] + u + seq![')'],
        (Some(u), Some(h)) => nick + seq![' ', '('] + u + seq!['@'] + h + seq![')'],
    }
}

/// The text of an optional string slice.
pub open spec fn opt_str(s: Option<&str>) -> Option<Seq<char>> {
    match s {
        Some(t) => Some(t@),
        None => None,
    }
}

/// The text of an optional string.
pub open spec fn opt_string(s: Option<String>) -> Option<Seq<char>> {
    match s {
        Some(t) => Some(t@),
        None => None,
    }
}

/// A participant: nickname, optional username and hostname, and the highest
/// rank held.
#[derive(Clone, Debug)]
pub struct User {
    nickname: String,
    username: Option<String>,
    hostname: Option<String>,
    access_level: AccessLevel,
}

impl View for User {
    type V = UserView;

    closed spec fn view(&self) -> UserView {
        UserView {
            nickname: self.nickname@,
            username: opt_string(self.username),
            hostname: opt_string(self.hostname),
            access_level: self.access_level,
        }
    }
}

/// Relies on irc's `User::new` and its getters, which read an identity text
/// as `parse_identity` says (irc 0.15, `client/data/user.rs`).
#[verifier::external_body]
fn irc_user(s: &str) -> (r: User)
    ensures
        r@ == parse_identity(s@),
{
    let u = irc::client::data::User::new(s);
    let access_level = match u.highest_access_level() {
        IrcLevel::Owner => AccessLevel::Owner,
        IrcLevel::Admin => AccessLevel::Admin,
        IrcLevel::Oper => AccessLevel::Oper,
        IrcLevel::HalfOp => AccessLevel::HalfOp,
        IrcLevel::Voice => AccessLevel::Voice,
        IrcLevel::Member => AccessLevel::Member,
    };
    let nickname = u.get_nickname().to_string();
    let username = u.get_username().map(|x| x.to_string());
    let hostname = u.get_hostname().map(|x| x.to_string());
    User { nickname, username, hostname, access_level }
}

/// A nickname as typed, with its case kept.
#[derive(Clone, Debug, PartialEq, Eq, Hash)]
pub struct Nick(String);

impl View for Nick {
    type V = Seq<char>;

    closed spec fn view(&self) -> Seq<char> {
        self.0@
    }
}

impl Nick {
    /// A nickname with the given text.
    pub fn from(nick: &str) -> (r: Nick)
        ensures
            r@ == nick@,
    {
        Nick(String::from_str(nick))
    }

    /// The text of the nickname.
    pub fn as_str(&self) -> (r: &str)
        ensures
            r@ == self@,
    {
        self.0.as_str()
    }

    /// The text of the nickname, owned.
    pub fn to_string(&self) -> (r: String)
        ensures
            r@ == self@,
    {
        String::from_str(self.0.as_str())
    }
}

/// A borrowed nickname; it orders without regard to case.
#[derive(Clone, Copy, Debug, PartialEq, Eq)]
pub struct NickRef<'a>(&'a str);

impl<'a> View for NickRef<'a> {
    type V = Seq<char>;

    closed spec fn view(&self) -> Seq<char> {
        self.0@
    }
}

/// Lexicographic order of two texts, character by character.
pub open spec fn lex_cmp(a: Seq<char>, b: Seq<char>) -> Ordering
    decreases a.len(),
{
    if a.len() == 0 {
        if b.len() == 0 {
            Ordering::Equal
        } else {
            Ordering::Less
        }
    } else if b.len() == 0 {
        Ordering::Greater
    } else if a[0] < b[0] {
        Ordering::Less
    } else if a[0] > b[0] {
        Ordering::Greater
    } else {
        lex_cmp(a.drop_first(), b.drop_first())
    }
}

/// What `str::to_lowercase` makes of a text.
pub uninterp spec fn lower_of(s: Seq<char>) -> Seq<char>;

/// Relies on `str::to_lowercase`: the result depends on the characters alone.
#[verifier::external_body]
fn lowercase(s: &str) -> (r: String)
    ensures
        r@ == lower_of(s@),
{
    s.to_lowercase()
}

/// Compares two texts character by character, as `str`'s order does.
pub fn compare_text(a: &str, b: &str) -> (r: Ordering)
    ensures
        r == lex_cmp(a@, b@),
{
    let n = a.unicode_len();
    let m = b.unicode_len();
    let mut i: usize = 0;
    assert(a@.skip(0) =~= a@ && b@.skip(0) =~= b@);
    while i < n && i < m
        invariant
            n == a@.len(),
            m == b@.len(),
            i <= n,
            i <= m,
            lex_cmp(a@, b@) == lex_cmp(a@.skip(i as int), b@.skip(i as int)),
        decreases n - i,
    {
        let x = a.get_char(i);
        let y = b.get_char(i);
        assert(a@.skip(i as int)[0] == x && b@.skip(i as int)[0] == y);
        if x < y {
            return Ordering::Less;
        }
        if x > y {
            return Ordering::Greater;
        }
        assert(a@.skip(i as int).drop_first() =~= a@.skip(i + 1));
        assert(b@.skip(i as int).drop_first() =~= b@.skip(i + 1));
        i = i + 1;
    }
    if i < n {
        Ordering::Greater
    } else if i < m {
        Ordering::Less
    } else {
        Ordering::Equal
    }
}

impl<'a> NickRef<'a> {
    /// A borrowed nickname over the given text.
    pub fn from(nick: &'a str) -> (r: NickRef<'a>)
        ensures
            r@ == nick@,
    {
        NickRef(nick)
    }

    /// An owned copy of the nickname, with its case kept.
    pub fn to_owned(self) -> (r: Nick)
        ensures
            r@ == self@,
    {
        Nick(String::from_str(self.0))
    }

    /// The text of the nickname.
    pub fn as_str(&self) -> (r: &'a str)
        ensures
            r@ == self@,
    {
        self.0
    }

    /// The text of the nickname, owned.
    pub fn to_string(&self) -> (r: String)
        ensures
            r@ == self@,
    {
        String::from_str(self.0)
    }

    /// Compares the lowercased texts of two nicknames.
    pub fn cmp(&self, other: &NickRef) -> (r: Ordering)
        ensures
            r == lex_cmp(lower_of(self@), lower_of(other@)),
    {
        let a = lowercase(self.0);
        let b = lowercase(other.0);
        compare_text(a.as_str(), b.as_str())
    }

    /// Whether the nickname has exactly the text of an owned one, case
    /// included.
    pub fn eq_nick(&self, other: &Nick) -> (r: bool)
        ensures
            r == (self@ == other@),
    {
        String::from_str(self.0) == other.0
    }
}

/// How users are coloured: all alike, or each by a seed of their own.
#[derive(Clone, Copy, Debug, PartialEq, Eq, Structural)]
pub enum ColorMode {
    Solid,
    Unique,
}

/// The seed a user's colour is drawn from: none under `Solid`; under
/// `Unique` the hostname where known, else the nickname.
pub open spec fn seed_of(u: UserView, mode: ColorMode) -> Option<Seq<char>> {
    match mode {
        ColorMode::Solid => None,
        ColorMode::Unique => match u.hostname {
            Some(h) => Some(h),
            None => Some(u.nickname),
        },
    }
}

/// The roster order: higher rank first, then nickname without regard to
/// case.
pub open spec fn user_order(a: UserView, b: UserView) -> Ordering {
    let by_rank = compare_nat(rank(b.access_level), rank(a.access_level));
    if by_rank == Ordering::Equal {
        lex_cmp(lower_of(a.nickname), lower_of(b.nickname))
    } else {
        by_rank
    }
}

/// Two users are the same person when nickname, username and hostname agree;
/// the rank does not count.
pub open spec fn same_identity(a: UserView, b: UserView) -> bool {
    &&& a.nickname == b.nickname
    &&& a.username == b.username
    &&& a.hostname == b.hostname
}

fn append_opt(s: &mut String, t: Option<&str>)
    ensures
        final(s)@ == old(s)@ + match opt_str(t) {
            Some(x) => x,
            None => Seq::empty(),
        },
{
    match t {
        Some(x) => s.append(x),
        None => assert(old(s)@ + Seq::<char>::empty() =~= old(s)@),
    }
}

fn identity_text(nick: &str, user: Option<&str>, host: Option<&str>) -> (r: String)
    ensures
        r@ == canonical_text(nick@, opt_str(user), opt_str(host)),
{
    proof {
        reveal_strlit("@");
        reveal_strlit("!");
    }
    let mut s = String::from_str(nick);
    match (user, host) {
        (None, None) => {},
        (None, Some(h)) => {
            s.append("@");
            s.append(h);
        },
        (Some(u), None) => {
            s.append("!");
            s.append(u);
        },
        (Some(u), Some(h)) => {
            s.append("!");
            s.append(u);
            s.append("@");
            s.append(h);
        },
    }
    assert(s@ =~= canonical_text(nick@, opt_str(user), opt_str(host)));
    s
}

fn display_form(nick: &str, user: Option<&str>, host: Option<&str>) -> (r: String)
    ensures
        r@ == display_text(nick@, opt_str(user), opt_str(host)),
{
    proof {
        reveal_strlit("@");
        reveal_strlit(" (");
        reveal_strlit(")");
    }
    let mut s = String::from_str(nick);
    match (user, host) {
        (None, None) => {},
        (None, Some(h)) => {
            s.append(" (");
            s.append(h);
            s.append(")");
        },
        (Some(u), None) => {
            s.append(" (");
            s.append(u);
            s.append(")");
        },
        (Some(u), Some(h)) => {
            s.append(" (");
            s.append(u);
            s.append("@");
            s.append(h);
            s.append(")");
        },
    }
    assert(s@ =~= display_text(nick@, opt_str(user), opt_str(host)));
    s
}

fn as_opt_str(s: &Option<String>) -> (r: Option<&str>)
    ensures
        opt_str(r) == opt_string(*s),
{
    match s {
        Some(t) => Some(t.as_str()),
        None => None,
    }
}

fn opt_text_eq(a: &Option<String>, b: &Option<String>) -> (r: bool)
    ensures
        r == (opt_string(*a) == opt_string(*b)),
{
    match (a, b) {
        (Some(x), Some(y)) => *x == *y,
        (None, None) => true,
        _ => false,
    }
}

fn owned_opt(s: Option<&str>) -> (r: Option<String>)
    ensures
        opt_string(r) == opt_str(s),
{
    match s {
        Some(t) => Some(String::from_str(t)),
        None => None,
    }
}

/// Why an identity text could not be read. Every text reads today, so no
/// value of it is made; it leaves room for a stricter reading.
#[derive(Clone, Copy, Debug, PartialEq, Eq, Structural)]
pub struct ParseError;

/// A position moved on by `k`.
pub open spec fn shift(o: Option<nat>, k: nat) -> Option<nat> {
    match o {
        Some(i) => Some(i + k),
        None => None,
    }
}

proof fn lemma_find_char_some(s: Seq<char>, c: char)
    requires
        find_char(s, c) is Some,
    ensures
        find_char(s, c)->0 < s.len(),
        s[find_char(s, c)->0 as int] == c,
    decreases s.len(),
{
    if s.len() > 0 && s[0] != c {
        lemma_find_char_some(s.drop_first(), c);
    }
}

/// How an identity text reads by the four shapes `nick`, `nick@host`,
/// `nick!user` and `nick!user@host`: as `parse_identity` where that finds a
/// username or a hostname; otherwise what follows a `!` is the username, and
/// with no `!` an `@` in the nickname splits off the hostname.
pub open spec fn read_identity(s: Seq<char>) -> UserView {
    let p = parse_identity(s);
    let rest = s.skip(rank_prefix_len(s) as int);
    if p.username is Some || p.hostname is Some {
        p
    } else {
        match find_char(rest, '!') {
            Some(i) => UserView {
                nickname: p.nickname,
                username: Some(rest.skip(i + 1 as int)),
                hostname: None,
                access_level: p.access_level,
            },
            None => match find_char(p.nickname, '@') {
                Some(j) => UserView {
                    nickname: p.nickname.take(j as int),
                    username: None,
                    hostname: Some(p.nickname.skip(j + 1 as int)),
                    access_level: p.access_level,
                },
                None => p,
            },
        }
    }
}

fn find_char_in(s: &str, c: char) -> (r: Option<usize>)
    ensures
        find_char(s@, c) == match r {
            Some(i) => Some(i as nat),
            None => None,
        },
{
    let n = s.unicode_len();
    let mut i: usize = 0;
    assert(s@.skip(0) =~= s@);
    while i < n
        invariant
            n == s@.len(),
            i <= n,
            find_char(s@, c) == shift(find_char(s@.skip(i as int), c), i as nat),
        decreases n - i,
    {
        assert(s@.skip(i as int)[0] == s@[i as int]);
        if s.get_char(i) == c {
            return Some(i);
        }
        assert(s@.skip(i as int).drop_first() =~= s@.skip(i + 1));
        i = i + 1;
    }
    assert(s@.skip(i as int).len() == 0);
    None
}

fn is_rank_symbol(c: char) -> (r: bool)
    ensures
        r == rank_symbol(c) is Some,
{
    c == '~' || c == '&' || c == '@' || c == '%' || c == '+'
}

fn rank_prefix_count(s: &str) -> (r: usize)
    ensures
        r == rank_prefix_len(s@),
        r <= s@.len(),
{
    let n = s.unicode_len();
    let mut i: usize = 0;
    assert(s@.skip(0) =~= s@);
    while i < n
        invariant
            n == s@.len(),
            i <= n,
            rank_prefix_len(s@) == i + rank_prefix_len(s@.skip(i as int)),
        decreases n - i,
    {
        assert(s@.skip(i as int)[0] == s@[i as int]);
        if !is_rank_symbol(s.get_char(i)) {
            return i;
        }
        assert(s@.skip(i as int).drop_first() =~= s@.skip(i + 1));
        i = i + 1;
    }
    i
}

impl User {
    /// Reads an identity text by the four shapes `nick`, `nick@host`,
    /// `nick!user` and `nick!user@host`, after any leading rank symbols;
    /// every text gives a user (see `read_identity`).
    pub fn parse(value: &str) -> (r: Result<User, ParseError>)
        ensures
            r is Ok,
            r->Ok_0@ == read_identity(value@),
    {
        let u = irc_user(value);
        if u.username.is_some() || u.hostname.is_some() {
            return Ok(u);
        }
        let k = rank_prefix_count(value);
        let rest = value.substring_char(k, value.unicode_len());
        let m = rest.unicode_len();
        match find_char_in(rest, '!') {
            Some(i) => {
                proof {
                    lemma_find_char_some(rest@, '!');
                }
                let name = rest.substring_char(i + 1, m);
                Ok(
                    User {
                        nickname: u.nickname,
                        username: Some(String::from_str(name)),
                        hostname: None,
                        access_level: u.access_level,
                    },
                )
            },
            None => {
                let split = {
                    let nick = u.nickname.as_str();
                    match find_char_in(nick, '@') {
                        Some(j) => {
                            proof {
                                lemma_find_char_some(nick@, '@');
                            }
                            let l = nick.unicode_len();
                            Some(
                                (
                                    String::from_str(nick.substring_char(0, j)),
                                    String::from_str(nick.substring_char(j + 1, l)),
                                ),
                            )
                        },
                        None => None,
                    }
                };
                match split {
                    Some((nickname, host)) => Ok(
                        User {
                            nickname,
                            username: None,
                            hostname: Some(host),
                            access_level: u.access_level,
                        },
                    ),
                    None => Ok(u),
                }
            },
        }
    }

    /// The user with exactly the given parts and rank.
    pub fn from_parts(
        nick: Nick,
        user: Option<&str>,
        host: Option<&str>,
        level: AccessLevel,
    ) -> (r: User)
        ensures
            r@ == (UserView {
                nickname: nick@,
                username: opt_str(user),
                hostname: opt_str(host),
                access_level: level,
            }),
    {
        User {
            nickname: nick.0,
            username: owned_opt(user),
            hostname: owned_opt(host),
            access_level: level,
        }
    }

    /// The user with exactly the given parts and the lowest rank.
    pub fn new(nick: Nick, user: Option<&str>, host: Option<&str>) -> (r: User)
        ensures
            r@ == (UserView {
                nickname: nick@,
                username: opt_str(user),
                hostname: opt_str(host),
                access_level: AccessLevel::Member,
            }),
    {
        User::from_parts(nick, user, host, AccessLevel::Member)
    }

    /// The seed of the user's colour under the given mode.
    pub fn color_seed(&self, color: &ColorMode) -> (r: Option<String>)
        ensures
            opt_string(r) == seed_of(self@, *color),
    {
        match color {
            ColorMode::Solid => None,
            ColorMode::Unique => match &self.hostname {
                Some(h) => Some(String::from_str(h.as_str())),
                None => Some(String::from_str(self.nickname.as_str())),
            },
        }
    }

    /// The username, where known.
    pub fn username(&self) -> (r: Option<&str>)
        ensures
            opt_str(r) == self@.username,
    {
        as_opt_str(&self.username)
    }

    /// The nickname, borrowed.
    pub fn nickname(&self) -> (r: NickRef)
        ensures
            r@ == self@.nickname,
    {
        NickRef(self.nickname.as_str())
    }

    /// The hostname, where known.
    pub fn hostname(&self) -> (r: Option<&str>)
        ensures
            opt_str(r) == self@.hostname,
    {
        as_opt_str(&self.hostname)
    }

    /// The highest rank the user holds.
    pub fn highest_access_level(&self) -> (r: AccessLevel)
        ensures
            r == self@.access_level,
    {
        self.access_level
    }

    /// The canonical text: `nick`, `nick@host`, `nick!user` or `nick!user@host`.
    pub fn to_canonical(&self) -> (r: String)
        ensures
            r@ == canonical_text(self@.nickname, self@.username, self@.hostname),
    {
        identity_text(self.nickname.as_str(), self.username(), self.hostname())
    }

    /// The display text: `nick`, `nick (host)`, `nick (user)` or
    /// `nick (user@host)`.
    pub fn formatted(&self) -> (r: String)
        ensures
            r@ == display_text(self@.nickname, self@.username, self@.hostname),
    {
        display_form(self.nickname.as_str(), self.username(), self.hostname())
    }

    /// The nickname, as a user is shown in short.
    pub fn to_string(&self) -> (r: String)
        ensures
            r@ == self@.nickname,
    {
        String::from_str(self.nickname.as_str())
    }

    /// The roster order: higher rank first, then nickname without regard to
    /// case.
    pub fn cmp(&self, other: &User) -> (r: Ordering)
        ensures
            r == user_order(self@, other@),
    {
        match other.access_level.cmp(&self.access_level) {
            Ordering::Equal => self.nickname().cmp(&other.nickname()),
            by_rank => by_rank,
        }
    }
}

impl PartialEq for User {
    fn eq(&self, other: &User) -> (r: bool) {
        self.nickname == other.nickname && opt_text_eq(&self.username, &other.username)
            && opt_text_eq(&self.hostname, &other.hostname)
    }
}

impl vstd::std_specs::cmp::PartialEqSpecImpl for User {
    open spec fn obeys_eq_spec() -> bool {
        true
    }

    open spec fn eq_spec(&self, other: &User) -> bool {
        same_identity(self@, other@)
    }
}

impl Eq for User {
}

impl PartialOrd for User {
    fn partial_cmp(&self, other: &User) -> (r: Option<Ordering>) {
        Some(self.cmp(other))
    }
}

impl vstd::std_specs::cmp::PartialOrdSpecImpl for User {
    open spec fn obeys_partial_cmp_spec() -> bool {
        true
    }

    open spec fn partial_cmp_spec(&self, other: &User) -> Option<Ordering> {
        Some(user_order(self@, other@))
    }
}

/// The opposite outcome of a comparison.
pub open spec fn flip(o: Ordering) -> Ordering {
    match o {
        Ordering::Less => Ordering::Greater,
        Ordering::Equal => Ordering::Equal,
        Ordering::Greater => Ordering::Less,
    }
}

proof fn lemma_lex_flip(a: Seq<char>, b: Seq<char>)
    ensures
        lex_cmp(a, b) == flip(lex_cmp(b, a)),
        lex_cmp(a, b) == Ordering::Equal ==> a == b,
    decreases a.len(),
{
    if a.len() > 0 && b.len() > 0 && a[0] == b[0] {
        lemma_lex_flip(a.drop_first(), b.drop_first());
        if lex_cmp(a, b) == Ordering::Equal {
            assert(a =~= seq![a[0]] + a.drop_first());
            assert(b =~= seq![b[0]] + b.drop_first());
        }
    }
}

proof fn lemma_lex_less_trans(a: Seq<char>, b: Seq<char>, c: Seq<char>)
    requires
        lex_cmp(a, b) == Ordering::Less,
        lex_cmp(b, c) == Ordering::Less,
    ensures
        lex_cmp(a, c) == Ordering::Less,
    decreases a.len(),
{
    if a.len() > 0 && b.len() > 0 && c.len() > 0 && a[0] == b[0] && b[0] == c[0] {
        lemma_lex_less_trans(a.drop_first(), b.drop_first(), c.drop_first());
    }
}

/// The roster order is antisymmetric: swapping two users flips the outcome,
/// and users compare equal only with equal rank and equal lowercased
/// nickname.
pub proof fn lemma_user_order_antisymmetric(a: UserView, b: UserView)
    ensures
        user_order(a, b) == flip(user_order(b, a)),
        user_order(a, b) == Ordering::Equal <==> (a.access_level == b.access_level
            && lower_of(a.nickname) == lower_of(b.nickname)),
{
    lemma_lex_flip(lower_of(a.nickname), lower_of(b.nickname));
    lemma_lex_flip(lower_of(b.nickname), lower_of(a.nickname));
    if lower_of(a.nickname) == lower_of(b.nickname) {
        lemma_lex_equal_refl(lower_of(a.nickname));
    }
}

proof fn lemma_lex_equal_refl(a: Seq<char>)
    ensures
        lex_cmp(a, a) == Ordering::Equal,
    decreases a.len(),
{
    if a.len() > 0 {
        lemma_lex_equal_refl(a.drop_first());
    }
}

/// The roster order is transitive.
pub proof fn lemma_user_order_transitive(a: UserView, b: UserView, c: UserView)
    requires
        user_order(a, b) == Ordering::Less,
        user_order(b, c) == Ordering::Less,
    ensures
        user_order(a, c) == Ordering::Less,
{
    if rank(a.access_level) == rank(b.access_level) && rank(b.access_level) == rank(
        c.access_level,
    ) {
        lemma_lex_less_trans(lower_of(a.nickname), lower_of(b.nickname), lower_of(c.nickname));
    }
}

proof fn lemma_find_separator(x: Seq<char>, c: char, y: Seq<char>)
    requires
        find_char(x, c) is None,
    ensures
        find_char(x + seq![c] + y, c) == Some(x.len()),
    decreases x.len(),
{
    let s = x + seq![c] + y;
    if x.len() > 0 {
        assert(s.drop_first() =~= x.drop_first() + seq![c] + y);
        lemma_find_separator(x.drop_first(), c, y);
    }
}

proof fn lemma_find_none_concat(x: Seq<char>, y: Seq<char>, c: char)
    requires
        find_char(x, c) is None,
        find_char(y, c) is None,
    ensures
        find_char(x + y, c) is None,
    decreases x.len(),
{
    if x.len() > 0 {
        assert((x + y).drop_first() =~= x.drop_first() + y);
        lemma_find_none_concat(x.drop_first(), y, c);
    } else {
        assert(x + y =~= y);
    }
}

/// A part of an identity that holds no separator: no `!` and no `@`.
pub open spec fn plain_part(t: Seq<char>) -> bool {
    &&& find_char(t, '!') is None
    &&& find_char(t, '@') is None
}

/// A nickname that the identity text reads back whole: not empty, no
/// separator, and no rank symbol in front.
pub open spec fn plain_nick(n: Seq<char>) -> bool {
    &&& n.len() > 0
    &&& plain_part(n)
    &&& rank_symbol(n[0]) is None
}

/// An optional part that is absent or holds no separator.
pub open spec fn plain_opt(t: Option<Seq<char>>) -> bool {
    match t {
        Some(x) => plain_part(x),
        None => true,
    }
}

/// Reading back the canonical text of a nickname with an optional username
/// and hostname gives the same three parts and the lowest rank, as
/// `User::new` holds them, in each of the four shapes, where no part holds a
/// separator and the nickname starts with no rank symbol.
pub proof fn lemma_identity_round_trip(
    n: Seq<char>,
    u: Option<Seq<char>>,
    h: Option<Seq<char>>,
)
    requires
        plain_nick(n),
        plain_opt(u),
        plain_opt(h),
    ensures
        read_identity(canonical_text(n, u, h)) == (UserView {
            nickname: n,
            username: u,
            hostname: h,
            access_level: AccessLevel::Member,
        }),
{
    let s = canonical_text(n, u, h);
    assert(s[0] == n[0]);
    assert(rank_prefix_len(s) == 0);
    assert(s.skip(0) =~= s);
    match (u, h) {
        (None, None) => {
            assert(s.skip(0) =~= Seq::<char>::empty() + s);
        },
        (Some(uu), None) => {
            lemma_find_separator(n, '!', uu);
            assert(s =~= n + seq!['!'] + uu);
            assert(s.take(n.len() as int) =~= n);
            assert(s.skip(n.len() + 1 as int) =~= uu);
        },
        (None, Some(hh)) => {
            assert(s =~= n + (seq!['@'] + hh));
            assert(find_char(seq!['@'] + hh, '!') is None) by {
                assert((seq!['@'] + hh).drop_first() =~= hh);
            }
            lemma_find_none_concat(n, seq!['@'] + hh, '!');
            lemma_find_separator(n, '@', hh);
            assert(n + seq!['@'] + hh =~= s);
            assert(s.take(n.len() as int) =~= n);
            assert(s.skip(n.len() + 1 as int) =~= hh);
        },
        (Some(uu), Some(hh)) => {
            let tail = uu + seq!['@'] + hh;
            assert(s =~= n + seq!['!'] + tail);
            lemma_find_separator(n, '!', tail);
            lemma_find_separator(uu, '@', hh);
            assert(s.take(n.len() as int) =~= n);
            assert(s.skip(n.len() + 1 as int) =~= tail);
            assert(tail.take(uu.len() as int) =~= uu);
            assert(tail.skip(uu.len() + 1 as int) =~= hh);
        },
    }
}

/// Relies on `String`'s `Hash`: it feeds the text to the hasher; nothing is
/// claimed of what the hasher computes.
pub assume_specification<H: core::hash::Hasher>[ <String as core::hash::Hash>::hash::<H> ](
    s: &String,
    state: &mut H,
);

/// Relies on `Option`'s `Hash`: it feeds the variant and the value to the
/// hasher; nothing is claimed of what the hasher computes.
pub assume_specification<T: core::hash::Hash, H: core::hash::Hasher>[ <Option<T> as core::hash::Hash>::hash::<H> ](
    o: &Option<T>,
    state: &mut H,
);

/// Hashes what equality compares: nickname, username and hostname, not the
/// rank.
impl core::hash::Hash for User {
    fn hash<H: core::hash::Hasher>(&self, state: &mut H) {
        self.nickname.hash(state);
        self.username.hash(state);
        self.hostname.hash(state);
    }
}

impl PartialOrd for AccessLevel {
    fn partial_cmp(&self, other: &AccessLevel) -> (r: Option<Ordering>) {
        Some(self.cmp(other))
    }
}

impl vstd::std_specs::cmp::PartialOrdSpecImpl for AccessLevel {
    open spec fn obeys_partial_cmp_spec() -> bool {
        true
    }

    open spec fn partial_cmp_spec(&self, other: &AccessLevel) -> Option<Ordering> {
        Some(compare_nat(rank(*self), rank(*other)))
    }
}

} // verus!
