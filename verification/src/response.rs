//! What a successful call hands back: an ordered list of key-value
//! attributes that records what was done.

use vstd::prelude::*;
use vstd::string::*;

verus! {

/// The views of a key and of its value.
pub type AttributeView = (Seq<char>, Seq<char>);

/// One key-value pair of a response.
#[derive(Debug, PartialEq, Eq)]
pub struct Attribute {
    pub key: String,
    pub value: String,
}

impl View for Attribute {
    type V = AttributeView;

    open spec fn view(&self) -> AttributeView {
        (self.key@, self.value@)
    }
}

impl Attribute {
    pub fn new(key: &str, value: &str) -> (attribute: Attribute)
        ensures
            attribute@ == (key@, value@),
    {
        Attribute { key: key.to_owned(), value: value.to_owned() }
    }
}

/// The views of a list of attributes, in order.
pub open spec fn attribute_views(attributes: Seq<Attribute>) -> Seq<AttributeView> {
    attributes.map_values(|attribute: Attribute| attribute@)
}

/// The record of a successful call.
#[derive(Debug, PartialEq, Eq)]
pub struct Response {
    pub attributes: Vec<Attribute>,
}

impl View for Response {
    type V = Seq<AttributeView>;

    open spec fn view(&self) -> Seq<AttributeView> {
        attribute_views(self.attributes@)
    }
}

impl Response {
    /// A response without attributes.
    pub fn new() -> (response: Response)
        ensures
            response@ == Seq::<AttributeView>::empty(),
    {
        let response = Response { attributes: Vec::new() };
        assert(response@ =~= Seq::<AttributeView>::empty());
        response
    }

    /// The response with one more attribute at its end.
    pub fn add_attribute(self, key: &str, value: &str) -> (response: Response)
        ensures
            response@ == self@.push((key@, value@)),
    {
        let mut attributes = self.attributes;
        attributes.push(Attribute::new(key, value));
        let response = Response { attributes };
        assert(response@ =~= self@.push((key@, value@)));
        response
    }

    /// The response with `more` appended, in order.
    pub fn add_attributes(self, more: Vec<Attribute>) -> (response: Response)
        ensures
            response@ == self@ + attribute_views(more@),
    {
        let ghost before = self@;
        let ghost added = attribute_views(more@);
        let mut attributes = self.attributes;
        let mut more = more;
        attributes.append(&mut more);
        let response = Response { attributes };
        assert(response@ =~= before + added);
        response
    }
}

/// The character of a decimal digit.
pub open spec fn digit_char(digit: nat) -> char {
    if digit == 0 {
        '0'
    } else if digit == 1 {
        '1'
    } else if digit == 2 {
        '2'
    } else if digit == 3 {
        '3'
    } else if digit == 4 {
        '4'
    } else if digit == 5 {
        '5'
    } else if digit == 6 {
        '6'
    } else if digit == 7 {
        '7'
    } else if digit == 8 {
        '8'
    } else {
        '9'
    }
}

/// The decimal numeral of `n`: its digits from the most significant on,
/// without leading zeros.
pub open spec fn decimal(n: nat) -> Seq<char>
    decreases n,
{
    if n < 10 {
        seq![digit_char(n)]
    } else {
        decimal(n / 10).push(digit_char(n % 10))
    }
}

fn digit_str(digit: u64) -> (text: &'static str)
    requires
        digit < 10,
    ensures
        text@ == seq![digit_char(digit as nat)],
{
    proof {
        reveal_strlit("0");
        reveal_strlit("1");
        reveal_strlit("2");
        reveal_strlit("3");
        reveal_strlit("4");
        reveal_strlit("5");
        reveal_strlit("6");
        reveal_strlit("7");
        reveal_strlit("8");
        reveal_strlit("9");
    }
    let text = if digit == 0 {
        "0"
    } else if digit == 1 {
        "1"
    } else if digit == 2 {
        "2"
    } else if digit == 3 {
        "3"
    } else if digit == 4 {
        "4"
    } else if digit == 5 {
        "5"
    } else if digit == 6 {
        "6"
    } else if digit == 7 {
        "7"
    } else if digit == 8 {
        "8"
    } else {
        "9"
    };
    assert(text@ =~= seq![digit_char(digit as nat)]);
    text
}

/// Writes `n` as a decimal numeral.
pub fn decimal_string(n: u64) -> (text: String)
    ensures
        text@ == decimal(n as nat),
    decreases n,
{
    if n < 10 {
        digit_str(n).to_owned()
    } else {
        let mut text = decimal_string(n / 10);
        text.append(digit_str(n % 10));
        assert(text@ =~= decimal(n as nat));
        text
    }
}

} // verus!
