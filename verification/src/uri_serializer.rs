//! The long (human-readable, name-based) wire form of addresses.
//!
//! The remote form is `//<authority>/<entity>[/<version>]/<resource>`, the
//! local form omits the leading `//<authority>` segment, and a resource is
//! written `name[.instance][#message-type]`. Malformed text parses to the
//! empty placeholder address, which validation then rejects; parsing never
//! fails with an error of its own.

use vstd::prelude::*;

use crate::text::{
    lemma_trim_noop, lemma_trim_one, spec_join_char, spec_no_char,
    find_char_from, is_blank, parse_u32, spec_dec_digits, spec_find, spec_is_blank,
    spec_parse_u32, spec_split_from, spec_trim_char_end, split_char, trim_end_index,
    u64_to_dec_string,
};
use crate::uri::{
    AuthorityView, EntityView, Remote, RemoteView, ResourceView, UAuthority, UEntity, UResource,
    UUri, UriView,
};
use crate::uri_validator::UriValidator;

verus! {

/// The authority part of the long form: `//` and the remote name or id,
/// or nothing for a local (or unnamed) authority.
pub open spec fn spec_auth_text(a: Option<AuthorityView>) -> Seq<char> {
    match a {
        Some(auth) => match auth.remote {
            Some(RemoteView::Name(n)) => "//"@ + n,
            Some(RemoteView::Id(i)) => "//"@ + spec_dec_digits(i as nat),
            None => Seq::empty(),
        },
        None => Seq::empty(),
    }
}

/// The entity name, or nothing when the slot is absent.
pub open spec fn spec_entity_name_text(e: Option<EntityView>) -> Seq<char> {
    match e {
        Some(en) => en.name,
        None => Seq::empty(),
    }
}

/// The version segment, or nothing when absent.
pub open spec fn spec_version_text(e: Option<EntityView>) -> Seq<char> {
    match e {
        Some(en) => match en.version_major {
            Some(v) => spec_dec_digits(v as nat),
            None => Seq::empty(),
        },
        None => Seq::empty(),
    }
}

/// The resource part: `/name[.instance][#message]`, or nothing when the
/// slot is absent or the resource name is empty.
pub open spec fn spec_resource_text(r: Option<ResourceView>) -> Seq<char> {
    match r {
        Some(res) => if res.name.len() == 0 {
            Seq::empty()
        } else {
            "/"@ + res.name + (match res.instance {
                Some(i) => "."@ + i,
                None => Seq::empty(),
            }) + (match res.message {
                Some(m) => "#"@ + m,
                None => Seq::empty(),
            })
        },
        None => Seq::empty(),
    }
}

/// The long form before trailing-slash trimming: authority, a slash, the
/// entity name, a slash, the version slot, then the resource part.
pub open spec fn spec_serialized_body(u: UriView) -> Seq<char> {
    spec_auth_text(u.authority) + "/"@ + spec_entity_name_text(u.entity) + "/"@ + spec_version_text(
        u.entity,
    ) + spec_resource_text(u.resource)
}

/// The long form of an address: empty for an empty address, otherwise the
/// body with trailing slashes removed.
pub open spec fn spec_serialize(u: UriView) -> Seq<char> {
    if u.is_empty() {
        Seq::empty()
    } else {
        spec_trim_char_end(spec_serialized_body(u), '/')
    }
}

/// The empty placeholder address model.
pub open spec fn spec_empty_view() -> UriView {
    UriView { authority: None, entity: None, resource: None }
}

/// What a version segment parses to: absent when empty, a number when all
/// digits, and a parse failure (degrading the whole address) otherwise.
pub open spec fn spec_parse_version(s: Seq<char>) -> Option<Option<u32>> {
    if s.len() == 0 {
        Some(None)
    } else {
        match spec_parse_u32(s) {
            Some(v) => Some(Some(v)),
            None => None,
        }
    }
}

/// What a resource segment parses to: the text before the first `#` is
/// the name, with an instance after the first `.` inside it; what follows
/// the `#` is the message-type tag.
pub open spec fn spec_parse_resource(s: Seq<char>) -> ResourceView {
    let hash = spec_find(s, '#', 0);
    let head = if 0 <= hash < s.len() {
        s.subrange(0, hash)
    } else {
        s
    };
    let message = if 0 <= hash && hash + 1 < s.len() {
        Some(s.subrange(hash + 1, s.len() as int))
    } else {
        None
    };
    let dot = spec_find(head, '.', 0);
    let name = if 0 <= dot < head.len() {
        head.subrange(0, dot)
    } else {
        head
    };
    let instance = if 0 <= dot && dot + 1 < head.len() {
        Some(head.subrange(dot + 1, head.len() as int))
    } else {
        None
    };
    ResourceView { name, instance, message, id: None }
}

/// Builds the parsed address from its pieces: a version parse failure
/// degrades the whole address to the empty placeholder; an absent
/// resource segment still fills the resource slot with the empty
/// placeholder resource.
pub open spec fn spec_assemble(
    auth: AuthorityView,
    name: Seq<char>,
    vtext: Seq<char>,
    rtext: Seq<char>,
) -> UriView {
    match spec_parse_version(vtext) {
        None => spec_empty_view(),
        Some(version) => UriView {
            authority: Some(auth),
            entity: Some(EntityView { name, version_major: version, id: None }),
            resource: Some(
                if rtext.len() == 0 {
                    ResourceView { name: Seq::empty(), instance: None, message: None, id: None }
                } else {
                    spec_parse_resource(rtext)
                },
            ),
        },
    }
}

/// The model of the authority slot of a parsed local address.
pub open spec fn spec_local_authority() -> AuthorityView {
    AuthorityView { remote: None, marked_remote: false }
}

/// What long-form text parses to. Anything after a first colon is taken
/// as the address; text that does not then begin with a slash, or whose
/// slash-separated segments are too few or malformed, parses to the empty
/// placeholder address.
pub open spec fn spec_deserialize(s: Seq<char>) -> UriView {
    let colon = spec_find(s, ':', 0);
    let body = if 0 <= colon < s.len() {
        s.subrange(colon + 1, s.len() as int)
    } else {
        s
    };
    if body.len() == 0 || body[0] != '/' {
        spec_empty_view()
    } else {
        let is_local = !(body.len() >= 2 && body[1] == '/');
        let parts = spec_split_from(spec_trim_char_end(body, '/'), '/', 0);
        if is_local {
            if parts.len() < 2 {
                spec_empty_view()
            } else {
                spec_assemble(
                    spec_local_authority(),
                    parts[1],
                    if parts.len() > 2 {
                        parts[2]
                    } else {
                        Seq::empty()
                    },
                    if parts.len() > 3 {
                        parts[3]
                    } else {
                        Seq::empty()
                    },
                )
            }
        } else {
            if parts.len() < 3 || spec_is_blank(parts[2]) {
                spec_empty_view()
            } else {
                spec_assemble(
                    AuthorityView { remote: Some(RemoteView::Name(parts[2])), marked_remote: true },
                    if parts.len() > 3 {
                        parts[3]
                    } else {
                        Seq::empty()
                    },
                    if parts.len() > 4 {
                        parts[4]
                    } else {
                        Seq::empty()
                    },
                    if parts.len() > 5 {
                        parts[5]
                    } else {
                        Seq::empty()
                    },
                )
            }
        }
    }
}

fn parse_resource(rtext: &str) -> (r: UResource)
    ensures
        r@ == spec_parse_resource(rtext@),
{
    let n = rtext.unicode_len();
    let mut head_end: usize = n;
    let mut message: Option<String> = None;
    match find_char_from(rtext, '#', 0) {
        Some(h) => {
            head_end = h;
            if h + 1 < n {
                message = Some(String::from_str(rtext.substring_char(h + 1, n)));
            }
        },
        None => {},
    }
    let head = rtext.substring_char(0, head_end);
    let hn = head.unicode_len();
    let mut name_end: usize = hn;
    let mut instance: Option<String> = None;
    match find_char_from(head, '.', 0) {
        Some(d) => {
            name_end = d;
            if d + 1 < hn {
                instance = Some(String::from_str(head.substring_char(d + 1, hn)));
            }
        },
        None => {},
    }
    let name = String::from_str(head.substring_char(0, name_end));
    proof {
        assert(rtext@.subrange(0, rtext@.len() as int) =~= rtext@);
        assert(head@.subrange(0, head@.len() as int) =~= head@);
    }
    UResource { name, instance, message, id: None }
}

fn assemble(authority: UAuthority, name: String, vtext: &str, rtext: &str) -> (r: UUri)
    ensures
        r@ == spec_assemble(authority@, name@, vtext@, rtext@),
{
    let version_major: Option<u32> = if vtext.unicode_len() == 0 {
        None
    } else {
        match parse_u32(vtext) {
            Some(v) => Some(v),
            None => {
                return UUri::default();
            },
        }
    };
    let resource: UResource = if rtext.unicode_len() == 0 {
        UResource::default()
    } else {
        parse_resource(rtext)
    };
    UUri {
        authority: Some(authority),
        entity: Some(UEntity { name, version_major, id: None }),
        resource: Some(resource),
    }
}

/// Serializes addresses to and from the long wire form.
pub struct LongUriSerializer;

impl LongUriSerializer {
    /// Writes the long form of an address: empty text for an empty
    /// address.
    pub fn serialize(uri: &UUri) -> (r: String)
        ensures
            r@ == spec_serialize(uri@),
    {
        if UriValidator::is_empty(uri) {
            return String::new();
        }
        let ghost uv = uri@;
        let mut body = String::new();
        match &uri.authority {
            Some(a) => {
                match &a.remote {
                    Some(Remote::Name(n)) => {
                        body.append("//");
                        body.append(n.as_str());
                    },
                    Some(Remote::Id(i)) => {
                        body.append("//");
                        body.append(u64_to_dec_string(*i as u64).as_str());
                    },
                    None => {},
                }
            },
            None => {},
        }
        proof {
            assert(body@ =~= spec_auth_text(uv.authority));
        }
        body.append("/");
        match &uri.entity {
            Some(e) => {
                body.append(e.name.as_str());
            },
            None => {},
        }
        proof {
            assert(body@ =~= spec_auth_text(uv.authority) + "/"@ + spec_entity_name_text(
                uv.entity,
            ));
        }
        body.append("/");
        match &uri.entity {
            Some(e) => {
                match e.version_major {
                    Some(v) => {
                        body.append(u64_to_dec_string(v as u64).as_str());
                    },
                    None => {},
                }
            },
            None => {},
        }
        match &uri.resource {
            Some(res) => {
                if res.name.unicode_len() > 0 {
                    body.append("/");
                    body.append(res.name.as_str());
                    match &res.instance {
                        Some(inst) => {
                            body.append(".");
                            body.append(inst.as_str());
                        },
                        None => {},
                    }
                    match &res.message {
                        Some(m) => {
                            body.append("#");
                            body.append(m.as_str());
                        },
                        None => {},
                    }
                }
            },
            None => {},
        }
        proof {
            assert(body@ =~= spec_auth_text(uv.authority) + "/"@ + spec_entity_name_text(uv.entity)
                + "/"@ + spec_version_text(uv.entity) + spec_resource_text(uv.resource));
            assert(body@ =~= spec_serialized_body(uri@));
        }
        let k = trim_end_index(body.as_str(), '/');
        let out = String::from_str(body.as_str().substring_char(0, k));
        out
    }

    /// Reads an address from long-form text. Malformed text degrades to
    /// the empty placeholder address; this never raises.
    pub fn deserialize(uri: String) -> (r: UUri)
        ensures
            r@ == spec_deserialize(uri@),
    {
        let s = uri.as_str();
        let n = s.unicode_len();
        let body: &str = match find_char_from(s, ':', 0) {
            Some(i) => s.substring_char(i + 1, n),
            None => s,
        };
        let bn = body.unicode_len();
        if bn == 0 {
            return UUri::default();
        }
        if body.get_char(0) != '/' {
            return UUri::default();
        }
        let is_local = !(bn >= 2 && body.get_char(1) == '/');
        let k = trim_end_index(body, '/');
        let t: &str = body.substring_char(0, k);
        let parts: Vec<String> = split_char(t, '/');
        proof {
            assert(parts@.map_values(|p: String| p@) == spec_split_from(
                spec_trim_char_end(body@, '/'),
                '/',
                0,
            ));
        }
        if is_local {
            if parts.len() < 2 {
                return UUri::default();
            }
            let name = parts[1].clone();
            let empty_text = String::new();
            let vtext: &String = if parts.len() > 2 {
                &parts[2]
            } else {
                &empty_text
            };
            let rtext: &String = if parts.len() > 3 {
                &parts[3]
            } else {
                &empty_text
            };
            assemble(UAuthority::local(), name, vtext.as_str(), rtext.as_str())
        } else {
            if parts.len() < 3 {
                return UUri::default();
            }
            if is_blank(parts[2].as_str()) {
                return UUri::default();
            }
            let aname = parts[2].clone();
            let empty_text = String::new();
            let name: String = if parts.len() > 3 {
                parts[3].clone()
            } else {
                String::new()
            };
            let vtext: &String = if parts.len() > 4 {
                &parts[4]
            } else {
                &empty_text
            };
            let rtext: &String = if parts.len() > 5 {
                &parts[5]
            } else {
                &empty_text
            };
            assemble(
                UAuthority { remote: Some(Remote::Name(aname)), marked_remote: true },
                name,
                vtext.as_str(),
                rtext.as_str(),
            )
        }
    }
}

/// Text that can stand inside one long-form segment: free of the segment
/// separator and of the scheme separator.
pub open spec fn spec_text_ok(s: Seq<char>) -> bool {
    spec_no_char(s, '/') && spec_no_char(s, ':')
}

/// The addresses the long form carries faithfully: all three slots
/// present; the authority local, or remote with a non-blank name; a
/// non-empty entity name; names free of the separator characters; and no
/// numeric ids or empty qualifiers, which the long form does not carry.
pub open spec fn spec_long_formable(m: UriView) -> bool {
    &&& match m.authority {
        Some(a) => (a.remote is None && !a.marked_remote) || (match a.remote {
            Some(RemoteView::Name(n)) => a.marked_remote && !spec_is_blank(n) && spec_text_ok(n),
            _ => false,
        }),
        None => false,
    }
    &&& match m.entity {
        Some(e) => e.name.len() > 0 && spec_text_ok(e.name) && e.id is None,
        None => false,
    }
    &&& match m.resource {
        Some(r) => r.id is None && ((r.name.len() == 0 && r.instance is None && r.message is None)
            || (r.name.len() > 0 && spec_text_ok(r.name) && spec_no_char(r.name, '#')
                && spec_no_char(r.name, '.') && (match r.instance {
                Some(i) => i.len() > 0 && spec_text_ok(i) && spec_no_char(i, '#'),
                None => true,
            }) && (match r.message {
                Some(mm) => mm.len() > 0 && spec_text_ok(mm),
                None => true,
            }))),
        None => false,
    }
}

/// The resource segment of the long form, without its leading slash.
pub open spec fn spec_resource_body(r: ResourceView) -> Seq<char> {
    r.name + (match r.instance {
        Some(i) => "."@ + i,
        None => Seq::empty(),
    }) + (match r.message {
        Some(mm) => "#"@ + mm,
        None => Seq::empty(),
    })
}

/// The long form's slash-separated segments for a serializable address.
pub open spec fn spec_segments(m: UriView) -> Seq<Seq<char>> {
    let base = match m.authority {
        Some(a) => match a.remote {
            Some(RemoteView::Name(n)) => seq![Seq::empty(), Seq::empty(), n],
            _ => seq![Seq::<char>::empty()],
        },
        None => seq![Seq::<char>::empty()],
    };
    let with_entity = base.push(spec_entity_name_text(m.entity));
    let has_res = match m.resource {
        Some(r) => r.name.len() > 0,
        None => false,
    };
    let has_ver = match m.entity {
        Some(e) => e.version_major is Some,
        None => false,
    };
    if has_res {
        with_entity.push(spec_version_text(m.entity)).push(
            match m.resource {
                Some(r) => spec_resource_body(r),
                None => Seq::empty(),
            },
        )
    } else if has_ver {
        with_entity.push(spec_version_text(m.entity))
    } else {
        with_entity
    }
}

proof fn lemma_join_push(segs: Seq<Seq<char>>, x: Seq<char>, c: char)
    requires
        segs.len() >= 1,
    ensures
        spec_join_char(segs.push(x), c) == spec_join_char(segs, c) + seq![c] + x,
    decreases segs.len(),
{
    if segs.len() == 1 {
        assert(segs.push(x).drop_first() =~= seq![x]);
        assert(spec_join_char(seq![x], c) == x);
        assert(segs.push(x)[0] == segs[0]);
    } else {
        assert(segs.push(x).drop_first() =~= segs.drop_first().push(x));
        lemma_join_push(segs.drop_first(), x, c);
        assert(segs.push(x)[0] == segs[0]);
        assert(segs[0] + seq![c] + (spec_join_char(segs.drop_first(), c) + seq![c] + x) =~= (
        segs[0] + seq![c] + spec_join_char(segs.drop_first(), c)) + seq![c] + x);
    }
}

proof fn lemma_digit_seq_sep_free(s: Seq<char>)
    requires
        forall|i: int| 0 <= i < s.len() ==> crate::text::spec_is_digit(s[i]),
    ensures
        spec_no_char(s, '/'),
        spec_no_char(s, ':'),
{
}

/// The serialized long form equals its segments joined with slashes.
#[verifier::rlimit(100)]
proof fn lemma_serialize_as_join(m: UriView)
    requires
        spec_long_formable(m),
    ensures
        spec_serialize(m) == spec_join_char(spec_segments(m), '/'),
{
    reveal_strlit("/");
    reveal_strlit("//");
    reveal_strlit(".");
    reveal_strlit("#");
    reveal_with_fuel(spec_join_char, 5);
    let body = spec_serialized_body(m);
    let segs = spec_segments(m);
    let ename = spec_entity_name_text(m.entity);
    let vtext = spec_version_text(m.entity);
    let base = match m.authority {
        Some(a) => match a.remote {
            Some(RemoteView::Name(n)) => seq![Seq::empty(), Seq::empty(), n],
            _ => seq![Seq::<char>::empty()],
        },
        None => seq![Seq::<char>::empty()],
    };
    let with_entity = base.push(ename);
    // the join of the base segments is the authority text
    match m.authority {
        Some(a) => match a.remote {
            Some(RemoteView::Name(n)) => {
                assert(seq![Seq::<char>::empty(), Seq::<char>::empty()].push(n) =~= base);
                lemma_join_push(seq![Seq::<char>::empty(), Seq::<char>::empty()], n, '/');
                assert(seq![Seq::<char>::empty(), Seq::<char>::empty()].drop_first() =~= seq![
                    Seq::<char>::empty(),
                ]);
                assert("//"@ =~= seq!['/', '/']);
                assert(spec_join_char(seq![Seq::<char>::empty(), Seq::<char>::empty()], '/') =~=
                    seq!['/']);
                assert(spec_join_char(base, '/') =~= spec_auth_text(m.authority));
            },
            _ => {
                assert(a.remote is None);
                assert(base =~= seq![Seq::<char>::empty()]);
                assert(spec_join_char(base, '/') == base[0]);
                assert(spec_join_char(base, '/') =~= spec_auth_text(m.authority));
            },
        },
        None => {},
    }
    lemma_join_push(base, ename, '/');
    assert(spec_join_char(with_entity, '/') =~= spec_auth_text(m.authority) + "/"@ + ename);
    let has_res = match m.resource {
        Some(r) => r.name.len() > 0,
        None => false,
    };
    let has_ver = match m.entity {
        Some(e) => e.version_major is Some,
        None => false,
    };
    let ename_last_ok = match m.entity {
        Some(e) => e.name.len() > 0 && e.name[e.name.len() - 1] != '/',
        None => false,
    };
    assert(ename_last_ok);
    if has_res {
        let rb = match m.resource {
            Some(r) => spec_resource_body(r),
            None => Seq::empty(),
        };
        lemma_join_push(with_entity, vtext, '/');
        lemma_join_push(with_entity.push(vtext), rb, '/');
        assert(spec_join_char(segs, '/') =~= spec_auth_text(m.authority) + "/"@ + ename + "/"@
            + vtext + ("/"@ + rb));
        assert(spec_resource_text(m.resource) =~= "/"@ + rb);
        assert(body =~= spec_join_char(segs, '/'));
        match m.resource {
            Some(r) => {
                match r.message {
                    Some(mm) => {
                        assert(rb.len() > 0 && rb.last() == mm.last());
                        assert(rb.last() != '/');
                    },
                    None => {
                        match r.instance {
                            Some(i) => {
                                assert(rb.len() > 0 && rb.last() == i.last());
                                assert(rb.last() != '/');
                            },
                            None => {
                                assert(rb =~= r.name);
                                assert(rb.len() > 0 && rb.last() == r.name.last());
                                assert(rb.last() != '/');
                            },
                        }
                    },
                }
            },
            None => {},
        }
        assert(body.last() == rb.last());
        lemma_trim_noop(body, '/');
    } else if has_ver {
        lemma_join_push(with_entity, vtext, '/');
        assert(spec_join_char(segs, '/') =~= spec_auth_text(m.authority) + "/"@ + ename + "/"@
            + vtext);
        assert(spec_resource_text(m.resource) =~= Seq::<char>::empty());
        assert(body =~= spec_join_char(segs, '/'));
        match m.entity {
            Some(e) => {
                match e.version_major {
                    Some(v) => {
                        crate::text::lemma_dec_digits_shape(v as nat);
                        assert(vtext.last() != '/');
                    },
                    None => {},
                }
            },
            None => {},
        }
        assert(body.last() == vtext.last());
        lemma_trim_noop(body, '/');
    } else {
        assert(vtext =~= Seq::<char>::empty());
        assert(spec_resource_text(m.resource) =~= Seq::<char>::empty());
        assert(body =~= spec_join_char(with_entity, '/') + seq!['/']);
        assert(body.last() == '/');
        assert(body[body.len() - 2] == ename.last());
        assert(ename.last() != '/');
        lemma_trim_one(body, '/');
        assert(body.drop_last() =~= spec_join_char(with_entity, '/'));
        assert(segs =~= with_entity);
    }
    assert(!m.is_empty());
}

/// Parsing a resource segment recovers its parts.
proof fn lemma_parse_resource_body(r: ResourceView)
    requires
        r.id is None,
        r.name.len() > 0,
        spec_no_char(r.name, '#'),
        spec_no_char(r.name, '.'),
        match r.instance {
            Some(i) => i.len() > 0 && spec_no_char(i, '#'),
            None => true,
        },
        match r.message {
            Some(mm) => mm.len() > 0,
            None => true,
        },
    ensures
        spec_parse_resource(spec_resource_body(r)) == r,
{
    reveal_strlit(".");
    reveal_strlit("#");
    let rb = spec_resource_body(r);
    let ipart = match r.instance {
        Some(i) => "."@ + i,
        None => Seq::<char>::empty(),
    };
    let head_model = r.name + ipart;
    let hlen = head_model.len() as int;
    match r.instance {
        Some(i) => {
            assert(spec_no_char(ipart, '#')) by {
                assert(forall|j: int| 0 <= j < ipart.len() ==> ipart[j] != '#') by {
                    assert(ipart[0] == '.');
                    assert(forall|j: int| 1 <= j < ipart.len() ==> #[trigger] ipart[j] == i[j - 1]);
                }
            }
        },
        None => {},
    }
    crate::text::lemma_no_char_concat(r.name, ipart, '#');
    match r.message {
        Some(mm) => {
            assert(rb =~= head_model + ("#"@ + mm));
            assert(forall|j: int| 0 <= j < hlen ==> #[trigger] rb[j] == head_model[j]);
            assert(rb[hlen] == '#');
            crate::text::lemma_find_exact(rb, '#', 0, hlen);
            assert(rb.subrange(0, hlen) =~= head_model);
            assert(rb.subrange(hlen + 1, rb.len() as int) =~= mm);
        },
        None => {
            assert(rb =~= head_model);
            crate::text::lemma_find_exact(rb, '#', 0, rb.len() as int);
        },
    }
    // the head splits at the first dot
    let head = if 0 <= spec_find(rb, '#', 0) < rb.len() {
        rb.subrange(0, spec_find(rb, '#', 0))
    } else {
        rb
    };
    assert(head =~= head_model);
    match r.instance {
        Some(i) => {
            let d = r.name.len() as int;
            assert(forall|j: int| 0 <= j < d ==> #[trigger] head[j] == r.name[j]);
            assert(head[d] == '.');
            crate::text::lemma_find_exact(head, '.', 0, d);
            assert(head.subrange(0, d) =~= r.name);
            assert(head.subrange(d + 1, head.len() as int) =~= i);
        },
        None => {
            assert(head =~= r.name);
            crate::text::lemma_find_exact(head, '.', 0, head.len() as int);
        },
    }
}

/// Law: a long-form-serializable address round-trips: parsing its
/// serialized text yields the same address model back.
#[verifier::rlimit(100)]
pub proof fn lemma_long_form_round_trip(m: UriView)
    requires
        spec_long_formable(m),
    ensures
        spec_deserialize(spec_serialize(m)) == m,
{
    reveal_strlit("/");
    reveal_with_fuel(spec_join_char, 5);
    lemma_serialize_as_join(m);
    let segs = spec_segments(m);
    let s = spec_serialize(m);
    let ename = spec_entity_name_text(m.entity);
    let vtext = spec_version_text(m.entity);
    let has_res = match m.resource {
        Some(r) => r.name.len() > 0,
        None => false,
    };
    let has_ver = match m.entity {
        Some(e) => e.version_major is Some,
        None => false,
    };
    let is_remote = match m.authority {
        Some(a) => a.remote is Some,
        None => false,
    };
    let rb = match m.resource {
        Some(r) => spec_resource_body(r),
        None => Seq::<char>::empty(),
    };
    // every segment is free of '/' and of ':'
    assert(spec_no_char(Seq::<char>::empty(), '/') && spec_no_char(Seq::<char>::empty(), ':'));
    match m.entity {
        Some(e) => {
            match e.version_major {
                Some(v) => {
                    crate::text::lemma_dec_digits_shape(v as nat);
                    lemma_digit_seq_sep_free(vtext);
                },
                None => {},
            }
        },
        None => {},
    }
    if has_res {
        match m.resource {
            Some(r) => {
                let ipart = match r.instance {
                    Some(i) => "."@ + i,
                    None => Seq::<char>::empty(),
                };
                let mpart = match r.message {
                    Some(mm) => "#"@ + mm,
                    None => Seq::<char>::empty(),
                };
                reveal_strlit(".");
                reveal_strlit("#");
                assert(spec_no_char(ipart, '/') && spec_no_char(ipart, ':')) by {
                    match r.instance {
                        Some(i) => {
                            assert(forall|j: int|
                                1 <= j < ipart.len() ==> #[trigger] ipart[j] == i[j - 1]);
                            assert(ipart[0] == '.');
                        },
                        None => {},
                    }
                }
                assert(spec_no_char(mpart, '/') && spec_no_char(mpart, ':')) by {
                    match r.message {
                        Some(mm) => {
                            assert(forall|j: int|
                                1 <= j < mpart.len() ==> #[trigger] mpart[j] == mm[j - 1]);
                            assert(mpart[0] == '#');
                        },
                        None => {},
                    }
                }
                crate::text::lemma_no_char_concat(r.name, ipart, '/');
                crate::text::lemma_no_char_concat(r.name + ipart, mpart, '/');
                crate::text::lemma_no_char_concat(r.name, ipart, ':');
                crate::text::lemma_no_char_concat(r.name + ipart, mpart, ':');
                assert(rb =~= (r.name + ipart) + mpart);
            },
            None => {},
        }
    }
    assert(forall|k: int| 0 <= k < segs.len() ==> spec_no_char(#[trigger] segs[k], '/'));
    assert(forall|k: int| 0 <= k < segs.len() ==> spec_no_char(#[trigger] segs[k], ':'));
    // no colon anywhere, so nothing is stripped as a scheme
    crate::text::lemma_join_no_char(segs, '/', ':');
    crate::text::lemma_find_exact(s, ':', 0, s.len() as int);
    // the first characters decide local against remote
    let segs2 = if is_remote {
        4int
    } else {
        2int
    };
    assert(segs.len() >= segs2);
    crate::text::lemma_join_first(segs, '/');
    assert(s[0] == '/');
    if is_remote {
        assert(segs.drop_first()[0] =~= Seq::<char>::empty());
        assert(spec_join_char(segs, '/') == segs[0] + seq!['/'] + spec_join_char(
            segs.drop_first(),
            '/',
        ));
        crate::text::lemma_join_first(segs.drop_first(), '/');
        assert(s[1] == '/');
        assert(s.len() >= 2);
    } else {
        assert(segs[0] =~= Seq::<char>::empty());
        assert(spec_join_char(segs, '/') == segs[0] + seq!['/'] + spec_join_char(
            segs.drop_first(),
            '/',
        ));
        crate::text::lemma_join_first(segs.drop_first(), '/');
        assert(segs.drop_first()[0] == ename);
        assert(ename.len() > 0);
        assert(s[1] == ename[0]);
        assert(s[1] != '/');
        assert(s.len() >= 2);
    }
    // the text carries no trailing slash, so the second trim is a no-op
    let last_seg = segs.last();
    assert(last_seg.len() > 0 && last_seg.last() != '/') by {
        if has_res {
            match m.resource {
                Some(r) => {
                    match r.message {
                        Some(mm) => {
                            assert(rb.last() == mm.last());
                        },
                        None => {
                            match r.instance {
                                Some(i) => {
                                    assert(rb.last() == i.last());
                                },
                                None => {
                                    assert(rb =~= r.name);
                                },
                            }
                        },
                    }
                },
                None => {},
            }
        } else if has_ver {
        } else {
        }
    }
    crate::text::lemma_join_last(segs, '/');
    crate::text::lemma_trim_noop(s, '/');
    // splitting recovers the segments
    crate::text::lemma_split_join(segs, '/');
    let parts = spec_split_from(spec_trim_char_end(s, '/'), '/', 0);
    assert(parts == segs);
    // the assembled pieces are the original slots
    match m.entity {
        Some(e) => {
            match e.version_major {
                Some(v) => {
                    crate::text::lemma_dec_digits_parse(v as nat);
                },
                None => {},
            }
        },
        None => {},
    }
    if has_res {
        match m.resource {
            Some(r) => {
                lemma_parse_resource_body(r);
            },
            None => {},
        }
    }
    let d = spec_deserialize(s);
    if is_remote {
        if has_res {
            assert(segs.len() == 6);
            assert(parts[2] == segs[2] && parts[3] == ename && parts[4] == vtext && parts[5] == rb);
        } else if has_ver {
            assert(segs.len() == 5);
            assert(parts[2] == segs[2] && parts[3] == ename && parts[4] == vtext);
        } else {
            assert(segs.len() == 4);
            assert(parts[2] == segs[2] && parts[3] == ename);
        }
    } else {
        if has_res {
            assert(segs.len() == 4);
            assert(parts[1] == ename && parts[2] == vtext && parts[3] == rb);
        } else if has_ver {
            assert(segs.len() == 3);
            assert(parts[1] == ename && parts[2] == vtext);
        } else {
            assert(segs.len() == 2);
            assert(parts[1] == ename);
        }
    }
    assert(d =~= m) by {
        assert(d.authority == m.authority);
        assert(d.entity == m.entity);
        assert(d.resource == m.resource);
    }
}

/// Canonical long-form text: the serialized form of some serializable
/// address.
pub open spec fn spec_is_canonical_long_form(s: Seq<char>) -> bool {
    exists|m: UriView| spec_long_formable(m) && spec_serialize(m) == s
}

/// Law: canonical long-form text round-trips: serializing what it parses
/// to yields the text itself.
pub proof fn lemma_canonical_text_round_trip(s: Seq<char>)
    requires
        spec_is_canonical_long_form(s),
    ensures
        spec_serialize(spec_deserialize(s)) == s,
{
    let m = choose|m: UriView| spec_long_formable(m) && spec_serialize(m) == s;
    lemma_long_form_round_trip(m);
}

impl UUri {
    /// The long wire form of this address; empty for an empty address.
    pub fn to_string(&self) -> (r: String)
        ensures
            r@ == spec_serialize(self@),
    {
        LongUriSerializer::serialize(self)
    }
}

} // verus!
