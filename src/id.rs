//! Identifiers of users, servers, the broadcast address and bootstrap peers.
use vstd::prelude::*;
use vstd::string::*;

verus! {

/// A lower-case hexadecimal digit.
pub open spec fn hex_char(d: u128) -> char {
    if d < 10 {
        digit_char(d as nat)
    } else if d == 10 { 'a' } else if d == 11 { 'b' } else if d == 12 { 'c' } else if d == 13 { 'd' }
    else if d == 14 { 'e' } else { 'f' }
}

/// The `k`-th hexadecimal digit of a UUID value, most significant first.
pub open spec fn uuid_nibble(v: u128, k: int) -> u128 {
    (v >> ((124 - 4 * k) as u128)) & 0xfu128
}

/// Whether a position of the text of a UUID holds a hyphen.
pub open spec fn is_hyphen_at(i: int) -> bool {
    i == 8 || i == 13 || i == 18 || i == 23
}

/// How many hex digits stand before position `i` of the text of a UUID.
pub open spec fn digits_before(i: int) -> int {
    if i <= 8 { i } else if i <= 13 { i - 1 } else if i <= 18 { i - 2 } else if i <= 23 { i - 3 } else { i - 4 }
}

/// Text of a UUID as the uuid crate writes it: 32 lower-case hex digits,
/// with hyphens at positions 8, 13, 18 and 23.
pub open spec fn uuid_text(v: u128) -> Seq<char> {
    Seq::new(36, |i: int| if is_hyphen_at(i) { '-' } else { hex_char(uuid_nibble(v, digits_before(i))) })
}

/// What the uuid crate's parser reads from a text: the UUID's value, if any.
pub uninterp spec fn uuid_parse(s: Seq<char>) -> Option<u128>;

/// Decimal digits of a natural number, most significant first.
pub open spec fn decimal_text(n: nat) -> Seq<char>
    decreases n,
{
    if n < 10 {
        seq![digit_char(n)]
    } else {
        decimal_text(n / 10).push(digit_char(n % 10))
    }
}

pub open spec fn digit_char(d: nat) -> char {
    if d == 0 { '0' } else if d == 1 { '1' } else if d == 2 { '2' } else if d == 3 { '3' }
    else if d == 4 { '4' } else if d == 5 { '5' } else if d == 6 { '6' } else if d == 7 { '7' }
    else if d == 8 { '8' } else { '9' }
}

/// Whether a UUID value is a random (version 4, RFC 4122 variant) UUID.
pub open spec fn is_v4(v: u128) -> bool {
    (v >> 76u128) & 0xfu128 == 4 && (v >> 62u128) & 0x3u128 == 2
}

/// Relies on uuid::Uuid::new_v4: random bits, with the version set to 4
/// and the variant to RFC 4122.
#[verifier::external_body]
fn random_uuid() -> (r: u128)
    ensures
        is_v4(r),
{
    uuid::Uuid::new_v4().as_u128()
}

/// Relies on uuid::Uuid's Display: the hyphenated text of 36 characters,
/// which its parser reads back.
#[verifier::external_body]
fn uuid_to_text(v: u128) -> (r: String)
    ensures
        r@ == uuid_text(v),
        r@.len() == 36,
        uuid_parse(r@) == Some(v),
{
    uuid::Uuid::from_u128(v).to_string()
}

/// Relies on uuid::Uuid::parse_str: the value of a UUID text, or an error;
/// only texts of 32, 36, 38 or 45 characters are read.
#[verifier::external_body]
fn parse_uuid(s: &str) -> (r: Option<u128>)
    ensures
        r == uuid_parse(s@),
        r is Some ==> (s@.len() == 32 || s@.len() == 36 || s@.len() == 38 || s@.len() == 45),
{
    match uuid::Uuid::parse_str(s) {
        Ok(u) => Some(u.as_u128()),
        Err(_) => None,
    }
}

/// The text of one decimal digit.
fn digit_text(d: u64) -> (r: &'static str)
    requires
        d < 10,
    ensures
        r@ == seq![digit_char(d as nat)],
{
    if d == 0 {
        proof {
            reveal_strlit("0");
            assert("0"@ =~= seq![digit_char(0)]);
        }
        return "0";
    }
    if d == 1 {
        proof {
            reveal_strlit("1");
            assert("1"@ =~= seq![digit_char(1)]);
        }
        return "1";
    }
    if d == 2 {
        proof {
            reveal_strlit("2");
            assert("2"@ =~= seq![digit_char(2)]);
        }
        return "2";
    }
    if d == 3 {
        proof {
            reveal_strlit("3");
            assert("3"@ =~= seq![digit_char(3)]);
        }
        return "3";
    }
    if d == 4 {
        proof {
            reveal_strlit("4");
            assert("4"@ =~= seq![digit_char(4)]);
        }
        return "4";
    }
    if d == 5 {
        proof {
            reveal_strlit("5");
            assert("5"@ =~= seq![digit_char(5)]);
        }
        return "5";
    }
    if d == 6 {
        proof {
            reveal_strlit("6");
            assert("6"@ =~= seq![digit_char(6)]);
        }
        return "6";
    }
    if d == 7 {
        proof {
            reveal_strlit("7");
            assert("7"@ =~= seq![digit_char(7)]);
        }
        return "7";
    }
    if d == 8 {
        proof {
            reveal_strlit("8");
            assert("8"@ =~= seq![digit_char(8)]);
        }
        return "8";
    }
    proof {
        reveal_strlit("9");
        assert("9"@ =~= seq![digit_char(9)]);
    }
    "9"
}

/// The decimal digits of a number, most significant first.
pub fn decimal_string(n: u64) -> (r: String)
    ensures
        r@ == decimal_text(n as nat),
    decreases n,
{
    if n < 10 {
        digit_text(n).to_owned()
    } else {
        let mut s = decimal_string(n / 10);
        s.append(digit_text(n % 10));
        s
    }
}

/// Whether two string slices hold the same characters.
pub fn same_text(a: &str, b: &str) -> (r: bool)
    ensures
        r == (a@ == b@),
{
    a.to_owned() == b.to_owned()
}

/// A UUID that names a user or a server.
#[derive(Clone, Copy, Debug, PartialEq, Eq, Hash, Structural)]
pub struct Id(pub u128);

impl Id {
    /// A fresh random identifier.
    pub fn new() -> (r: Id)
        ensures
            is_v4(r.0),
    {
        Id(random_uuid())
    }

    /// The UUID's value.
    pub fn uuid(&self) -> (r: u128)
        ensures
            r == self.0,
    {
        self.0
    }

    /// Reads a UUID text.
    pub fn from_str(s: &str) -> (r: Option<Id>)
        ensures
            r == (match uuid_parse(s@) {
                Some(v) => Some(Id(v)),
                None => None::<Id>,
            }),
            r is Some ==> (s@.len() == 32 || s@.len() == 36 || s@.len() == 38 || s@.len() == 45),
    {
        match parse_uuid(s) {
            Some(v) => Some(Id(v)),
            None => None,
        }
    }

    /// The hyphenated text of the UUID; it reads back as the same id.
    pub fn to_string(&self) -> (r: String)
        ensures
            r@ == uuid_text(self.0),
            r@.len() == 36,
            uuid_parse(r@) == Some(self.0),
    {
        uuid_to_text(self.0)
    }
}

/// The value of an identifier, in mathematical terms.
pub enum IdentifierView {
    Broadcast,
    Id(u128),
    Bootstrap(Seq<char>),
}

impl IdentifierView {
    /// The wire text of an identifier.
    pub open spec fn text(self) -> Seq<char> {
        match self {
            IdentifierView::Broadcast => seq!['*'],
            IdentifierView::Id(v) => uuid_text(v),
            IdentifierView::Bootstrap(a) => a,
        }
    }
}

/// How a non-empty wire text is read: a UUID first, then `*`, else a bootstrap address.
pub open spec fn parse_identifier(s: Seq<char>) -> IdentifierView {
    match uuid_parse(s) {
        Some(v) => IdentifierView::Id(v),
        None => if s == seq!['*'] {
            IdentifierView::Broadcast
        } else {
            IdentifierView::Bootstrap(s)
        },
    }
}

/// Reading a wire text and writing it back gives the text itself, but for a
/// UUID, which comes back in its canonical form.
pub proof fn lemma_identifier_text_round_trip(s: Seq<char>)
    requires
        s.len() > 0,
    ensures
        parse_identifier(s).text() == (match uuid_parse(s) {
            Some(v) => uuid_text(v),
            None => s,
        }),
{
}

/// Writing an identifier and reading the text back gives the identifier, for
/// a UUID, for the broadcast address, and for any address that is no UUID and
/// not `*`.
pub proof fn lemma_identifier_value_round_trip(x: IdentifierView)
    requires
        x is Broadcast ==> uuid_parse(seq!['*']) is None,
        x is Id ==> uuid_parse(x.text()) == Some(x->Id_0),
        x is Bootstrap ==> x->Bootstrap_0.len() > 0 && x->Bootstrap_0 != seq!['*']
            && uuid_parse(x->Bootstrap_0) is None,
    ensures
        parse_identifier(x.text()) == x,
{
}

/// The error of reading an identifier from an empty text.
#[derive(Clone, Copy, Debug, PartialEq, Eq, Structural)]
pub enum IdentifierError {
    Empty,
}

/// Universal identifier of users, servers, the broadcast address, or a
/// bootstrap peer that has no id yet.
#[derive(Clone, Debug, PartialEq, Eq, Hash)]
pub enum Identifier {
    /// Every user or server; written `*`.
    Broadcast,
    /// A user or a server; written as its UUID.
    Id(Id),
    /// A bootstrap address; written `host:port`.
    Bootstrap(String),
}

impl View for Identifier {
    type V = IdentifierView;

    open spec fn view(&self) -> IdentifierView {
        match self {
            Identifier::Broadcast => IdentifierView::Broadcast,
            Identifier::Id(id) => IdentifierView::Id(id.0),
            Identifier::Bootstrap(a) => IdentifierView::Bootstrap(a@),
        }
    }
}

impl Identifier {
    /// A fresh random identifier.
    pub fn new() -> (r: Identifier)
        ensures
            r@ is Id,
            is_v4(r@->Id_0),
    {
        Identifier::Id(Id::new())
    }

    /// The bootstrap identifier `host:port`.
    pub fn bootstrap(host: &str, port: u16) -> (r: Identifier)
        ensures
            r@ == IdentifierView::Bootstrap(host@ + seq![':'] + decimal_text(port as nat)),
    {
        let mut a = host.to_owned();
        a.append(":");
        let p = decimal_string(port as u64);
        a.append(p.as_str());
        proof {
            reveal_strlit(":");
            assert(":"@ =~= seq![':']);
        }
        Identifier::Bootstrap(a)
    }

    /// A copy of the identifier.
    pub fn duplicate(&self) -> (r: Identifier)
        ensures
            r == *self,
    {
        match self {
            Identifier::Broadcast => Identifier::Broadcast,
            Identifier::Id(id) => Identifier::Id(*id),
            Identifier::Bootstrap(a) => Identifier::Bootstrap(a.clone()),
        }
    }

    /// The wire text of the identifier; an id's text reads back as the id.
    pub fn as_str(&self) -> (r: String)
        ensures
            r@ == self@.text(),
            self@ is Id ==> uuid_parse(r@) == Some(self@->Id_0) && r@.len() == 36,
    {
        match self {
            Identifier::Id(id) => id.to_string(),
            Identifier::Broadcast => {
                proof {
                    reveal_strlit("*");
                }
                "*".to_owned()
            },
            Identifier::Bootstrap(addr) => addr.clone(),
        }
    }

    /// The wire text of the identifier; an id's text reads back as the id.
    pub fn to_string(&self) -> (r: String)
        ensures
            r@ == self@.text(),
            self@ is Id ==> uuid_parse(r@) == Some(self@->Id_0) && r@.len() == 36,
    {
        self.as_str()
    }

    /// Whether this is the broadcast identifier.
    pub fn is_broadcast(&self) -> (r: bool)
        ensures
            r == (self@ is Broadcast),
    {
        matches!(self, Identifier::Broadcast)
    }

    /// The id, if this names a user or a server.
    pub fn as_id(&self) -> (r: Option<&Id>)
        ensures
            self@ is Id <==> r is Some,
            r is Some ==> self@ == IdentifierView::Id(r->Some_0.0),
    {
        match self {
            Identifier::Id(id) => Some(id),
            _ => None,
        }
    }

    /// The address, if this is a bootstrap identifier.
    pub fn as_bootstrap(&self) -> (r: Option<&str>)
        ensures
            self@ is Bootstrap <==> r is Some,
            r is Some ==> self@ == IdentifierView::Bootstrap(r->Some_0@),
    {
        match self {
            Identifier::Bootstrap(addr) => Some(addr.as_str()),
            _ => None,
        }
    }

    /// Reads a wire text: a UUID, `*`, or else a bootstrap address. The
    /// empty text is refused.
    pub fn from_str(s: &str) -> (r: Result<Identifier, IdentifierError>)
        ensures
            r is Err <==> s@.len() == 0,
            r is Ok ==> r->Ok_0@ == parse_identifier(s@),
            uuid_parse(s@) is Some ==> (s@.len() == 32 || s@.len() == 36 || s@.len() == 38 || s@.len() == 45),
            s@ == seq!['*'] ==> r is Ok && r->Ok_0@ == IdentifierView::Broadcast,
    {
        let parsed = Id::from_str(s);
        if s.is_empty() {
            return Err(IdentifierError::Empty);
        }
        match parsed {
            Some(id) => Ok(Identifier::Id(id)),
            None => {
                proof {
                    reveal_strlit("*");
                    assert("*"@ =~= seq!['*']);
                }
                if same_text(s, "*") {
                    Ok(Identifier::Broadcast)
                } else {
                    Ok(Identifier::Bootstrap(s.to_owned()))
                }
            },
        }
    }
}

} // verus!
