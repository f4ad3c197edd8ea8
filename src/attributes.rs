use vstd::prelude::*;

verus! {

/// The name format of every attribute this provider issues.
pub open spec fn uri_format() -> Seq<char> {
    "urn:oasis:names:tc:SAML:2.0:attrname-format:uri"@
}

/// The address derived from a subject identifier.
pub open spec fn email_of(id: Seq<char>) -> Seq<char> {
    id + "@example.com"@
}

/// The characters of `s` before its first `.` (all of `s` when it has none).
pub open spec fn before_dot(s: Seq<char>) -> Seq<char>
    decreases s.len(),
{
    if s.len() == 0 {
        s
    } else if s[0] == '.' {
        Seq::empty()
    } else {
        seq![s[0]] + before_dot(s.drop_first())
    }
}

/// The characters of `s` after its first `.` (empty when it has none).
pub open spec fn after_dot(s: Seq<char>) -> Seq<char>
    decreases s.len(),
{
    if s.len() == 0 {
        s
    } else if s[0] == '.' {
        s.drop_first()
    } else {
        after_dot(s.drop_first())
    }
}

/// The first name placeholder: the first `.`-separated part of the identifier.
pub open spec fn first_name_of(id: Seq<char>) -> Seq<char> {
    if id.contains('.') {
        before_dot(id)
    } else {
        "First"@
    }
}

/// The last name placeholder: the second `.`-separated part of the identifier.
pub open spec fn last_name_of(id: Seq<char>) -> Seq<char> {
    if id.contains('.') {
        before_dot(after_dot(id))
    } else {
        "Last"@
    }
}

/// One attribute of an assertion: its name, its name format and its value.
#[derive(Debug)]
pub struct UserAttribute {
    pub name: String,
    pub format: String,
    pub value: String,
}

impl View for UserAttribute {
    type V = (Seq<char>, Seq<char>, Seq<char>);

    open spec fn view(&self) -> (Seq<char>, Seq<char>, Seq<char>) {
        (self.name@, self.format@, self.value@)
    }
}

/// The attributes issued for the subject `id`, in order.
pub open spec fn resolved_attributes(id: Seq<char>) -> Seq<(Seq<char>, Seq<char>, Seq<char>)> {
    seq![
        ("firstName"@, uri_format(), first_name_of(id)),
        ("lastName"@, uri_format(), last_name_of(id)),
        ("email"@, uri_format(), email_of(id)),
        ("mobilePhone"@, uri_format(), "555-123-4567"@),
    ]
}

/// The view of each attribute of a list.
pub open spec fn attributes_view(v: Seq<UserAttribute>) -> Seq<(Seq<char>, Seq<char>, Seq<char>)> {
    v.map_values(|a: UserAttribute| a@)
}

/// Splitting at the first `.`: everything before a `.`-free prefix moves into the head.
proof fn lemma_dot_prefix(s: Seq<char>, i: int)
    requires
        0 <= i <= s.len(),
        forall|j: int| 0 <= j < i ==> s[j] != '.',
    ensures
        before_dot(s) == s.subrange(0, i) + before_dot(s.subrange(i, s.len() as int)),
        after_dot(s) == after_dot(s.subrange(i, s.len() as int)),
    decreases i,
{
    if i > 0 {
        lemma_dot_prefix(s.drop_first(), i - 1);
        assert(s.drop_first().subrange(i - 1, s.len() - 1) =~= s.subrange(i, s.len() as int));
        assert(seq![s[0]] + s.drop_first().subrange(0, i - 1) =~= s.subrange(0, i));
    } else {
        assert(s.subrange(0, 0) =~= Seq::<char>::empty());
        assert(s.subrange(0, s.len() as int) =~= s);
    }
}

/// Splits `s` at its first `.`: the part before it and the part after it,
/// or `None` when `s` has no `.`.
fn split_at_first_dot(s: &str) -> (r: Option<(&str, &str)>)
    ensures
        match r {
            Some((head, tail)) => s@.contains('.') && head@ == before_dot(s@) && tail@ == after_dot(
                s@,
            ),
            None => !s@.contains('.') && before_dot(s@) == s@,
        },
{
    let n = s.unicode_len();
    let mut i: usize = 0;
    while i < n
        invariant
            n == s@.len(),
            0 <= i <= n,
            forall|j: int| 0 <= j < i ==> s@[j] != '.',
        decreases n - i,
    {
        if s.get_char(i) == '.' {
            proof {
                lemma_dot_prefix(s@, i as int);
                let rest = s@.subrange(i as int, s@.len() as int);
                assert(rest[0] == '.');
                assert(before_dot(rest) == Seq::<char>::empty());
                assert(s@.subrange(0, i as int) + Seq::<char>::empty() =~= s@.subrange(
                    0,
                    i as int,
                ));
                assert(rest.drop_first() =~= s@.subrange(i + 1, s@.len() as int));
                assert(s@.contains('.')) by {
                    assert(s@[i as int] == '.');
                }
            }
            return Some((s.substring_char(0, i), s.substring_char(i + 1, n)));
        }
        i = i + 1;
    }
    proof {
        lemma_dot_prefix(s@, i as int);
        assert(s@.subrange(i as int, s@.len() as int) =~= Seq::<char>::empty());
        assert(s@.subrange(0, i as int) =~= s@);
        assert(s@.subrange(0, i as int) + Seq::<char>::empty() =~= s@);
    }
    None
}

/// The e-mail address of the subject `user_id`: `{user_id}@example.com`.
pub fn email_for(user_id: &str) -> (r: String)
    ensures
        r@ == email_of(user_id@),
{
    let mut email = String::from_str(user_id);
    email.append("@example.com");
    email
}

/// Builds one attribute with the URI name format.
fn uri_attribute(name: &str, value: &str) -> (r: UserAttribute)
    ensures
        r@ == (name@, uri_format(), value@),
{
    UserAttribute {
        name: String::from_str(name),
        format: String::from_str("urn:oasis:names:tc:SAML:2.0:attrname-format:uri"),
        value: String::from_str(value),
    }
}

/// Resolves the subject `user_id` to the attributes of its assertion: first
/// and last name taken from the `.`-separated parts of the identifier, the
/// address `{user_id}@example.com`, and an example phone number.
pub fn create_user_attributes(user_id: &str) -> (r: Vec<UserAttribute>)
    ensures
        attributes_view(r@) == resolved_attributes(user_id@),
        r@.len() == 4,
        r@[2].name@ == "email"@,
        r@[2].value@ == email_of(user_id@),
{
    let (first_name, last_name) = match split_at_first_dot(user_id) {
        Some((head, tail)) => {
            let last = match split_at_first_dot(tail) {
                Some((second, _)) => second,
                None => tail,
            };
            (head, last)
        },
        None => ("First", "Last"),
    };
    let email = email_for(user_id);
    let r = vec![
        uri_attribute("firstName", first_name),
        uri_attribute("lastName", last_name),
        uri_attribute("email", email.as_str()),
        uri_attribute("mobilePhone", "555-123-4567"),
    ];
    assert(attributes_view(r@) =~= resolved_attributes(user_id@));
    r
}

} // verus!
