//! DNS resolution keys

use vstd::prelude::*;
use crate::syscall::holds_nul;
use vstd::string::StringExecFns;
use std::borrow::Cow;
use crate::keytype::{lemma_ascii_holds_no_nul, KeyDescription, KeyType};

verus! {

/// A DNS resolver key.
#[derive(Debug, Default, Clone, Copy, PartialEq, Eq)]
pub struct DnsResolver;

impl KeyType for DnsResolver {
    /// A resolver key is described by what it looks up.
    type Description = Description;

    /// Resolver keys are filled by the kernel's helper: there is no payload to
    /// give.
    type Payload = ();

    open spec fn spec_name() -> Seq<char> {
        "dns_resolver"@
    }

    fn name() -> (name: &'static str) {
        "dns_resolver"
    }
}

impl DnsResolver {
    /// The name of the type holds no NUL: the kernel can take it.
    pub proof fn lemma_name_holds_no_nul()
        ensures
            !holds_nul(<DnsResolver as KeyType>::spec_name()),
    {
        reveal_strlit("dns_resolver");
        lemma_ascii_holds_no_nul("dns_resolver"@);
    }
}

/// The DNS record to lookup.
#[derive(Debug, Clone, Eq)]
pub enum QueryType {
    /// An IPv4 address.
    A,
    /// An IPv6 address.
    AAAA,
    /// An AFS database address.
    AFSDB,
    /// A custom DNS record.
    Other(String),
}

impl QueryType {
    /// The name of the DNS record.
    pub open spec fn spec_name(&self) -> Seq<char> {
        match self {
            QueryType::A => "a"@,
            QueryType::AAAA => "aaaa"@,
            QueryType::AFSDB => "afsdb"@,
            QueryType::Other(name) => name@,
        }
    }

    /// The name of the DNS record.
    pub fn name(&self) -> (name: &str)
        ensures
            name@ == self.spec_name(),
    {
        match self {
            QueryType::A => "a",
            QueryType::AAAA => "aaaa",
            QueryType::AFSDB => "afsdb",
            QueryType::Other(name) => name.as_str(),
        }
    }
}

impl vstd::std_specs::cmp::PartialEqSpecImpl for QueryType {
    open spec fn obeys_eq_spec() -> bool {
        true
    }

    /// Two records are the same where they have the same name.
    open spec fn eq_spec(&self, other: &QueryType) -> bool {
        self.spec_name() == other.spec_name()
    }
}

impl PartialEq for QueryType {
    fn eq(&self, other: &QueryType) -> (same: bool) {
        String::from_str(self.name()) == String::from_str(other.name())
    }
}

/// The description of a DNS resolver key.
#[derive(Debug, Clone, PartialEq, Eq)]
pub struct Description {
    /// The type of query to perform.
    ///
    /// If not specified, `A` and `AAAA` entries will be found.
    pub query_type: Option<QueryType>,
    /// The name to resolve.
    pub name: String,
}

impl KeyDescription for Description {
    /// The name to resolve, after the name of the record and a colon where a
    /// record is asked for.
    open spec fn spec_description(&self) -> Seq<char> {
        match self.query_type {
            Some(query_type) => query_type.spec_name() + ":"@ + self.name@,
            None => self.name@,
        }
    }

    fn description(&self) -> (description: Cow<'_, str>) {
        match &self.query_type {
            Some(query_type) => {
                let mut text = String::from_str(query_type.name());
                text.append(":");
                text.append(self.name.as_str());
                Cow::Owned(text)
            },
            None => Cow::Owned(self.name.clone()),
        }
    }
}

} // verus!
