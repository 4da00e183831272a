//! The concrete records: a user with a profile, built on the user base
//! fields, and messages built on the message base fields.
//!
//! Each record lists the base fields first, then its own, as
//! [`generate`](crate::compose::generate) composes them from
//! [`user_base`] and [`message_base`].
use vstd::prelude::*;
use crate::compose::{distinct_names, BaseSet, FieldDecl, Visibility};

verus! {

/// The public face of a user.
#[derive(Debug)]
pub struct Profile {
    name: String,
    description: String,
    image: String,
}

impl Profile {
    pub closed spec fn spec_name(&self) -> Seq<char> {
        self.name@
    }

    pub closed spec fn spec_description(&self) -> Seq<char> {
        self.description@
    }

    pub closed spec fn spec_image(&self) -> Seq<char> {
        self.image@
    }

    pub fn new(name: String, description: String, image: String) -> (r: Profile)
        ensures
            r.spec_name() == name@,
            r.spec_description() == description@,
            r.spec_image() == image@,
    {
        Profile { name, description, image }
    }

    pub fn name(&self) -> (r: &String)
        ensures
            r@ == self.spec_name(),
    {
        &self.name
    }

    pub fn description(&self) -> (r: &String)
        ensures
            r@ == self.spec_description(),
    {
        &self.description
    }

    pub fn image(&self) -> (r: &String)
        ensures
            r@ == self.spec_image(),
    {
        &self.image
    }
}

impl Clone for Profile {
    fn clone(&self) -> (r: Self)
        ensures
            r == *self,
    {
        Profile {
            name: self.name.clone(),
            description: self.description.clone(),
            image: self.image.clone(),
        }
    }
}

impl PartialEq for Profile {
    fn eq(&self, o: &Profile) -> (r: bool) {
        self.name == o.name && self.description == o.description && self.image == o.image
    }
}

impl vstd::std_specs::cmp::PartialEqSpecImpl for Profile {
    open spec fn obeys_eq_spec() -> bool {
        true
    }

    open spec fn eq_spec(&self, o: &Profile) -> bool {
        self.spec_name() == o.spec_name() && self.spec_description() == o.spec_description()
            && self.spec_image() == o.spec_image()
    }
}

/// A user: the user base fields followed by its active flag.
#[derive(Debug)]
pub struct User {
    pub id: i64,
    pub email: String,
    pub profile: Profile,
    pub active: bool,
}

impl Clone for User {
    fn clone(&self) -> (r: Self)
        ensures
            r == *self,
    {
        User {
            id: self.id,
            email: self.email.clone(),
            profile: self.profile.clone(),
            active: self.active,
        }
    }
}

impl PartialEq for User {
    fn eq(&self, o: &User) -> (r: bool) {
        self.id == o.id && self.email == o.email && self.profile == o.profile && self.active
            == o.active
    }
}

impl vstd::std_specs::cmp::PartialEqSpecImpl for User {
    open spec fn obeys_eq_spec() -> bool {
        true
    }

    open spec fn eq_spec(&self, o: &User) -> bool {
        &&& self.id == o.id
        &&& self.email@ == o.email@
        &&& self.profile.spec_name() == o.profile.spec_name()
        &&& self.profile.spec_description() == o.profile.spec_description()
        &&& self.profile.spec_image() == o.profile.spec_image()
        &&& self.active == o.active
    }
}

/// A message: the message base fields followed by its read flag.
#[derive(Debug)]
pub struct Message {
    pub author_id: i64,
    pub text: String,
    pub read: bool,
}

impl Message {
    /// The message as it is after being marked read.
    pub open spec fn marked_read(self) -> Message {
        Message { read: true, ..self }
    }

    /// Replaces the text; the author and the read flag stay as they were.
    pub fn update_text(&mut self, new_message: String)
        ensures
            final(self).text == new_message,
            final(self).author_id == old(self).author_id,
            final(self).read == old(self).read,
    {
        self.text = new_message;
    }

    /// Marks the message read; a message already read is left as it is.
    pub fn read(&mut self)
        ensures
            *final(self) == old(self).marked_read(),
    {
        if self.read == false {
            self.read = true;
        }
    }
}

impl Clone for Message {
    fn clone(&self) -> (r: Self)
        ensures
            r == *self,
    {
        Message { author_id: self.author_id, text: self.text.clone(), read: self.read }
    }
}

impl PartialEq for Message {
    fn eq(&self, o: &Message) -> (r: bool) {
        self.author_id == o.author_id && self.text == o.text && self.read == o.read
    }
}

impl vstd::std_specs::cmp::PartialEqSpecImpl for Message {
    open spec fn obeys_eq_spec() -> bool {
        true
    }

    open spec fn eq_spec(&self, o: &Message) -> bool {
        self.author_id == o.author_id && self.text@ == o.text@ && self.read == o.read
    }
}

/// Marking a message read twice leaves it as marking it once does, and a
/// message already read is left unchanged by it.
pub proof fn lemma_read_idempotent(m: Message)
    ensures
        m.marked_read().marked_read() == m.marked_read(),
        m.marked_read().read,
        m.read ==> m.marked_read() == m,
{
}

/// A request to create a message: the message base fields alone.
#[derive(Debug)]
pub struct MessageCreateRequest {
    pub author_id: i64,
    pub text: String,
}

impl Clone for MessageCreateRequest {
    fn clone(&self) -> (r: Self)
        ensures
            r == *self,
    {
        MessageCreateRequest { author_id: self.author_id, text: self.text.clone() }
    }
}

impl PartialEq for MessageCreateRequest {
    fn eq(&self, o: &MessageCreateRequest) -> (r: bool) {
        self.author_id == o.author_id && self.text == o.text
    }
}

impl vstd::std_specs::cmp::PartialEqSpecImpl for MessageCreateRequest {
    open spec fn obeys_eq_spec() -> bool {
        true
    }

    open spec fn eq_spec(&self, o: &MessageCreateRequest) -> bool {
        self.author_id == o.author_id && self.text@ == o.text@
    }
}

/// A request to update a message: the message base fields alone, with no
/// capabilities attached.
pub struct MessageUpdateRequest {
    pub author_id: i64,
    pub text: String,
}

/// `f` has visibility `vis`, name `name` and type `ty`.
pub open spec fn field_is(f: FieldDecl, vis: Visibility, name: Seq<char>, ty: Seq<char>) -> bool {
    f.vis == vis && f.name@ == name && f.ty@ == ty
}

/// The user base: a public `id: i64`, `email: String` and
/// `profile: Profile`, in that order.
pub fn user_base() -> (r: BaseSet)
    ensures
        r.spec_name() == "UserBase"@,
        r.spec_fields().len() == 3,
        field_is(r.spec_fields()[0], Visibility::Public, "id"@, "i64"@),
        field_is(r.spec_fields()[1], Visibility::Public, "email"@, "String"@),
        field_is(r.spec_fields()[2], Visibility::Public, "profile"@, "Profile"@),
{
    let fields = vec![
        FieldDecl::new(Visibility::Public, "id", "i64"),
        FieldDecl::new(Visibility::Public, "email", "String"),
        FieldDecl::new(Visibility::Public, "profile", "Profile"),
    ];
    proof {
        reveal_strlit("id");
        reveal_strlit("email");
        reveal_strlit("profile");
        assert(fields@[0].name@.len() == 2 && fields@[1].name@.len() == 5);
        assert(fields@[2].name@.len() == 7);
        assert(distinct_names(fields@));
    }
    let r = BaseSet::define("UserBase".to_string(), fields);
    r.unwrap()
}

/// The message base: a public `author_id: i64` and `text: String`, in that
/// order.
pub fn message_base() -> (r: BaseSet)
    ensures
        r.spec_name() == "MessageBase"@,
        r.spec_fields().len() == 2,
        field_is(r.spec_fields()[0], Visibility::Public, "author_id"@, "i64"@),
        field_is(r.spec_fields()[1], Visibility::Public, "text"@, "String"@),
{
    let fields = vec![
        FieldDecl::new(Visibility::Public, "author_id", "i64"),
        FieldDecl::new(Visibility::Public, "text", "String"),
    ];
    proof {
        reveal_strlit("author_id");
        reveal_strlit("text");
        assert(fields@[0].name@.len() == 9 && fields@[1].name@.len() == 4);
        assert(distinct_names(fields@));
    }
    let r = BaseSet::define("MessageBase".to_string(), fields);
    r.unwrap()
}

} // verus!
