//! Semantic `browser:*` capability classes and the set a session grants.

use vstd::prelude::*;

verus! {

/// A capability class that a session may be granted.
#[derive(Clone, Copy, Debug, PartialEq, Eq, Structural)]
pub enum BrowserCap {
    Navigate,
    Script,
    Input,
    Read,
}

/// The identifier of a capability class, as declared to the host.
pub open spec fn cap_id(cap: BrowserCap) -> Seq<char> {
    match cap {
        BrowserCap::Navigate => "browser:navigate"@,
        BrowserCap::Script => "browser:script"@,
        BrowserCap::Input => "browser:input"@,
        BrowserCap::Read => "browser:read"@,
    }
}

/// The short kebab-case name under which a capability class is written in
/// session arguments (`"navigate"`, `"script"`, `"input"`, `"read"`).
pub open spec fn cap_name(cap: BrowserCap) -> Seq<char> {
    match cap {
        BrowserCap::Navigate => "navigate"@,
        BrowserCap::Script => "script"@,
        BrowserCap::Input => "input"@,
        BrowserCap::Read => "read"@,
    }
}

/// All four capability classes, in declaration order.
pub open spec fn all_caps() -> Seq<BrowserCap> {
    seq![BrowserCap::Navigate, BrowserCap::Script, BrowserCap::Input, BrowserCap::Read]
}

/// The message with which a request for an ungranted capability is refused.
pub open spec fn denial_message(cap: BrowserCap) -> Seq<char> {
    "capability "@ + cap_id(cap) + " is not granted to this session"@
}

impl BrowserCap {
    /// The identifier of this capability class.
    pub fn id(&self) -> (r: &'static str)
        ensures
            r@ == cap_id(*self),
    {
        match self {
            BrowserCap::Navigate => "browser:navigate",
            BrowserCap::Script => "browser:script",
            BrowserCap::Input => "browser:input",
            BrowserCap::Read => "browser:read",
        }
    }
}

/// The capability classes granted to one session.
pub struct CapSet(Vec<BrowserCap>);

impl View for CapSet {
    type V = Seq<BrowserCap>;

    closed spec fn view(&self) -> Seq<BrowserCap> {
        self.0@
    }
}

impl CapSet {
    /// The set that grants every capability class.
    pub fn all() -> (r: CapSet)
        ensures
            r@ == all_caps(),
    {
        CapSet(vec![BrowserCap::Navigate, BrowserCap::Script, BrowserCap::Input, BrowserCap::Read])
    }

    /// The set that grants exactly the listed capability classes.
    pub fn from_list(list: Vec<BrowserCap>) -> (r: CapSet)
        ensures
            r@ == list@,
    {
        CapSet(list)
    }

    /// Whether `cap` is granted.
    pub fn grants(&self, cap: BrowserCap) -> (r: bool)
        ensures
            r == self@.contains(cap),
    {
        let n = self.0.len();
        let mut i: usize = 0;
        while i < n
            invariant
                n == self.0@.len(),
                i <= n,
                forall|j: int| 0 <= j < i ==> self.0@[j] != cap,
            decreases n - i,
        {
            if self.0[i] == cap {
                return true;
            }
            i = i + 1;
        }
        false
    }

    /// Succeeds when `cap` is granted, and otherwise fails with a message
    /// that names the capability's identifier.
    pub fn require(&self, cap: BrowserCap) -> (r: Result<(), String>)
        ensures
            r is Ok <==> self@.contains(cap),
            r matches Err(m) ==> m@ == denial_message(cap),
    {
        if self.grants(cap) {
            Ok(())
        } else {
            let mut m = String::from_str("capability ");
            m.append(cap.id());
            m.append(" is not granted to this session");
            proof {
                reveal_strlit("capability ");
                reveal_strlit(" is not granted to this session");
            }
            Err(m)
        }
    }
}

impl BrowserCap {
    /// The capability class that a session argument names by its kebab-case
    /// name, if any.
    pub fn from_name(name: &str) -> (r: Option<BrowserCap>)
        ensures
            match r {
                Some(c) => cap_name(c) == name@,
                None => forall|c: BrowserCap| cap_name(c) != name@,
            },
    {
        proof {
            reveal_strlit("navigate");
            reveal_strlit("script");
            reveal_strlit("input");
            reveal_strlit("read");
        }
        let n = String::from_str(name);
        if n == String::from_str("navigate") {
            Some(BrowserCap::Navigate)
        } else if n == String::from_str("script") {
            Some(BrowserCap::Script)
        } else if n == String::from_str("input") {
            Some(BrowserCap::Input)
        } else if n == String::from_str("read") {
            Some(BrowserCap::Read)
        } else {
            None
        }
    }
}

/// Every capability class is read back from its own name, and from no other.
pub proof fn lemma_cap_names_are_distinct(a: BrowserCap, b: BrowserCap)
    ensures
        cap_name(a) == cap_name(b) <==> a == b,
        cap_id(a) == cap_id(b) <==> a == b,
{
    reveal_strlit("navigate");
    reveal_strlit("script");
    reveal_strlit("input");
    reveal_strlit("read");
    reveal_strlit("browser:navigate");
    reveal_strlit("browser:script");
    reveal_strlit("browser:input");
    reveal_strlit("browser:read");
    if cap_name(a) == cap_name(b) {
        assert(cap_name(a).len() == cap_name(b).len());
        assert(cap_name(a)[0] == cap_name(b)[0]);
    }
    if cap_id(a) == cap_id(b) {
        assert(cap_id(a).len() == cap_id(b).len());
        assert(cap_id(a)[8] == cap_id(b)[8]);
    }
}

/// The set of all capability classes grants every class.
pub proof fn lemma_all_grants_everything(cap: BrowserCap)
    ensures
        all_caps().contains(cap),
{
    let k: int = match cap {
        BrowserCap::Navigate => 0,
        BrowserCap::Script => 1,
        BrowserCap::Input => 2,
        BrowserCap::Read => 3,
    };
    assert(all_caps()[k] == cap);
}

} // verus!
