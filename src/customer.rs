use crate::name_email::{
    count_graphemes, email_is_valid, email_shape, grapheme_count, name_accepted, name_is_valid,
};
use vstd::prelude::*;

verus! {

/// A validated customer name.
pub struct CustomerName(String);

impl View for CustomerName {
    type V = Seq<char>;

    closed spec fn view(&self) -> Seq<char> {
        self.0@
    }
}

impl CustomerName {
    #[verifier::type_invariant]
    spec fn well_formed(self) -> bool {
        name_accepted(self.0@, grapheme_count(self.0@))
    }

    /// Accepts `s` as a username, or says why not.
    pub fn parse(s: String) -> (r: Result<CustomerName, String>)
        ensures
            match r {
                Ok(n) => name_accepted(s@, grapheme_count(s@)) && n@ == s@,
                Err(m) => !name_accepted(s@, grapheme_count(s@)) && m@ == s@
                    + " is not a valid subscriber name."@,
            },
    {
        let count = count_graphemes(s.as_str());
        if name_is_valid(s.as_str(), count) {
            Ok(CustomerName(s))
        } else {
            let mut m = s.clone();
            m.append(" is not a valid subscriber name.");
            Err(m)
        }
    }

    /// The name as text; it satisfies the username rule.
    pub fn as_ref(&self) -> (r: &str)
        ensures
            r@ == self@,
            name_accepted(r@, grapheme_count(r@)),
    {
        proof {
            use_type_invariant(self);
        }
        self.0.as_str()
    }
}

/// A validated customer email address.
pub struct CustomerEmail(String);

impl View for CustomerEmail {
    type V = Seq<char>;

    closed spec fn view(&self) -> Seq<char> {
        self.0@
    }
}

impl CustomerEmail {
    #[verifier::type_invariant]
    spec fn well_formed(self) -> bool {
        email_shape(self.0@)
    }

    /// Accepts `s` as an email address, or says why not.
    pub fn parse(s: String) -> (r: Result<CustomerEmail, String>)
        ensures
            match r {
                Ok(e) => email_shape(s@) && e@ == s@,
                Err(m) => !email_shape(s@) && m@ == s@ + " is not a valid email address."@,
            },
    {
        if email_is_valid(s.as_str()) {
            Ok(CustomerEmail(s))
        } else {
            let mut m = s.clone();
            m.append(" is not a valid email address.");
            Err(m)
        }
    }

    /// The address as text; it has the accepted shape.
    pub fn as_ref(&self) -> (r: &str)
        ensures
            r@ == self@,
            email_shape(r@),
    {
        proof {
            use_type_invariant(self);
        }
        self.0.as_str()
    }
}

} // verus!
