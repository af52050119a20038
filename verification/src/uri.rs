//! The address model: an authority naming the node, a software entity on
//! it, and an optional resource of that entity. An address is *empty*
//! (unusable) unless all three slots are structurally present, even if the
//! authority's content stands for the local node.

use vstd::prelude::*;

verus! {

/// The name or numeric id identifying a remote node.
#[derive(Clone, Debug)]
pub enum Remote {
    Name(String),
    Id(u32),
}

/// The addressing component naming the node an entity lives on.
///
/// A present authority indicates a remote node unless it is explicitly
/// marked otherwise: `marked_remote` set with no name or id means "remote
/// node, not identified", which validation rejects; `marked_remote` unset
/// stands for the local node.
#[derive(Clone, Debug)]
pub struct UAuthority {
    pub remote: Option<Remote>,
    pub marked_remote: bool,
}

impl UAuthority {
    /// An authority slot standing for the local node.
    pub fn local() -> (r: UAuthority)
        ensures
            r.remote is None,
            !r.marked_remote,
    {
        UAuthority { remote: None, marked_remote: false }
    }
}

impl Default for UAuthority {
    /// A default authority indicates a remote node that has not been
    /// identified yet.
    fn default() -> (r: Self)
        ensures
            r.remote is None,
            r.marked_remote,
    {
        UAuthority { remote: None, marked_remote: true }
    }
}

/// The addressable software entity: a name, an optional major version and
/// an optional numeric id (for the compact wire form).
#[derive(Clone, Debug)]
pub struct UEntity {
    pub name: String,
    pub version_major: Option<u32>,
    pub id: Option<u32>,
}

impl Default for UEntity {
    fn default() -> (r: Self)
        ensures
            r.name@ == Seq::<char>::empty(),
            r.version_major is None,
            r.id is None,
    {
        UEntity { name: String::new(), version_major: None, id: None }
    }
}

/// A named sub-element of an entity (a topic or an RPC method), with an
/// optional instance qualifier, an optional message-type tag and an
/// optional numeric id.
#[derive(Clone, Debug)]
pub struct UResource {
    pub name: String,
    pub instance: Option<String>,
    pub message: Option<String>,
    pub id: Option<u32>,
}

impl Default for UResource {
    fn default() -> (r: Self)
        ensures
            r.name@ == Seq::<char>::empty(),
            r.instance is None,
            r.message is None,
            r.id is None,
    {
        UResource { name: String::new(), instance: None, message: None, id: None }
    }
}

/// An address: who/what a message is from or to.
#[derive(Clone, Debug)]
pub struct UUri {
    pub authority: Option<UAuthority>,
    pub entity: Option<UEntity>,
    pub resource: Option<UResource>,
}

impl Default for UUri {
    /// The empty placeholder address, which validation rejects.
    fn default() -> (r: Self)
        ensures
            r.authority is None,
            r.entity is None,
            r.resource is None,
    {
        UUri { authority: None, entity: None, resource: None }
    }
}

/// The mathematical model of a remote name-or-id.
pub ghost enum RemoteView {
    Name(Seq<char>),
    Id(u32),
}

/// The mathematical model of an authority slot.
pub ghost struct AuthorityView {
    pub remote: Option<RemoteView>,
    pub marked_remote: bool,
}

/// The mathematical model of an entity slot.
pub ghost struct EntityView {
    pub name: Seq<char>,
    pub version_major: Option<u32>,
    pub id: Option<u32>,
}

/// The mathematical model of a resource slot.
pub ghost struct ResourceView {
    pub name: Seq<char>,
    pub instance: Option<Seq<char>>,
    pub message: Option<Seq<char>>,
    pub id: Option<u32>,
}

/// The mathematical model of an address.
pub ghost struct UriView {
    pub authority: Option<AuthorityView>,
    pub entity: Option<EntityView>,
    pub resource: Option<ResourceView>,
}

impl View for Remote {
    type V = RemoteView;

    open spec fn view(&self) -> RemoteView {
        match self {
            Remote::Name(n) => RemoteView::Name(n@),
            Remote::Id(i) => RemoteView::Id(*i),
        }
    }
}

impl View for UAuthority {
    type V = AuthorityView;

    open spec fn view(&self) -> AuthorityView {
        AuthorityView {
            remote: match self.remote {
                Some(r) => Some(r@),
                None => None,
            },
            marked_remote: self.marked_remote,
        }
    }
}

impl View for UEntity {
    type V = EntityView;

    open spec fn view(&self) -> EntityView {
        EntityView { name: self.name@, version_major: self.version_major, id: self.id }
    }
}

impl View for UResource {
    type V = ResourceView;

    open spec fn view(&self) -> ResourceView {
        ResourceView {
            name: self.name@,
            instance: match self.instance {
                Some(ref i) => Some(i@),
                None => None,
            },
            message: match self.message {
                Some(ref m) => Some(m@),
                None => None,
            },
            id: self.id,
        }
    }
}

impl View for UUri {
    type V = UriView;

    open spec fn view(&self) -> UriView {
        UriView {
            authority: match self.authority {
                Some(ref a) => Some(a@),
                None => None,
            },
            entity: match self.entity {
                Some(ref e) => Some(e@),
                None => None,
            },
            resource: match self.resource {
                Some(ref r) => Some(r@),
                None => None,
            },
        }
    }
}

impl UriView {
    /// The model counterpart of address emptiness: a structural slot is
    /// absent.
    pub open spec fn is_empty(self) -> bool {
        self.authority is None || self.entity is None || self.resource is None
    }
}

} // verus!
