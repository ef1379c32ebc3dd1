//! A JSON value, as far as the records of this library read it.

use vstd::prelude::*;

use crate::text::str_eq;

verus! {

/// A JSON value.
///
/// A number is kept only where it is written as a whole number, without
/// sign, fraction or exponent, and is no greater than 2^64 - 1: no field of
/// a record holds any other.
#[derive(Debug, PartialEq, Eq)]
pub enum Json {
    Null,
    Bool(bool),
    /// A number written as a whole number from 0 to 2^64 - 1.
    Natural(u64),
    /// Any other number: one with a sign, a fraction or an exponent, or one
    /// greater than 2^64 - 1.
    OtherNumber,
    Text(String),
    Array(Vec<Json>),
    /// The members of an object in their order. Where a name occurs more than
    /// once, the last member of that name counts.
    Object(Vec<(String, Json)>),
}

/// The mathematical value of a [`Json`].
pub enum JsonView {
    Null,
    Bool(bool),
    Natural(u64),
    OtherNumber,
    Text(Seq<char>),
    Array(Seq<JsonView>),
    Object(Seq<(Seq<char>, JsonView)>),
}

/// The value of the last member named `name` among `members`, if there is one.
pub open spec fn last_named(members: Seq<(Seq<char>, JsonView)>, name: Seq<char>) -> Option<
    JsonView,
>
    decreases members.len(),
{
    if members.len() == 0 {
        None
    } else if members.last().0 == name {
        Some(members.last().1)
    } else {
        last_named(members.drop_last(), name)
    }
}

/// A member put in under one name changes nothing of what is found under
/// another, wherever it is put in.
pub proof fn lemma_last_named_apart(
    members: Seq<(Seq<char>, JsonView)>,
    at: int,
    added: (Seq<char>, JsonView),
    name: Seq<char>,
)
    requires
        0 <= at <= members.len(),
        added.0 != name,
    ensures
        last_named(members.insert(at, added), name) == last_named(members, name),
    decreases members.len(),
{
    let longer = members.insert(at, added);
    if at == members.len() {
        assert(longer.drop_last() =~= members);
    } else {
        assert(longer.last() == members.last());
        assert(longer.drop_last() =~= members.drop_last().insert(at, added));
        lemma_last_named_apart(members.drop_last(), at, added, name);
    }
}

impl JsonView {
    /// The member `name` of an object; `None` for a value that is no object or
    /// has no such member.
    pub open spec fn member(self, name: Seq<char>) -> Option<JsonView> {
        match self {
            JsonView::Object(members) => last_named(members, name),
            _ => None,
        }
    }
}

/// The values of `items`, one for one.
pub open spec fn items_view(items: Seq<Json>) -> Seq<JsonView>
    decreases items,
{
    if items.len() == 0 {
        Seq::empty()
    } else {
        items_view(items.drop_last()).push(items.last()@)
    }
}

/// The names and values of `members`, one for one.
pub open spec fn members_view(members: Seq<(String, Json)>) -> Seq<(Seq<char>, JsonView)>
    decreases members,
{
    if members.len() == 0 {
        Seq::empty()
    } else {
        members_view(members.drop_last()).push((members.last().0@, members.last().1@))
    }
}

impl View for Json {
    type V = JsonView;

    open spec fn view(&self) -> JsonView
        decreases self,
    {
        match self {
            Json::Null => JsonView::Null,
            Json::Bool(b) => JsonView::Bool(*b),
            Json::Natural(n) => JsonView::Natural(*n),
            Json::OtherNumber => JsonView::OtherNumber,
            Json::Text(s) => JsonView::Text(s@),
            Json::Array(items) => JsonView::Array(items_view(items@)),
            Json::Object(members) => JsonView::Object(members_view(members@)),
        }
    }
}

/// `items_view` goes item by item.
pub proof fn lemma_items_view(items: Seq<Json>)
    ensures
        items_view(items).len() == items.len(),
        forall|i: int| 0 <= i < items.len() ==> #[trigger] items_view(items)[i] == items[i]@,
    decreases items.len(),
{
    if items.len() > 0 {
        lemma_items_view(items.drop_last());
        assert(items_view(items) == items_view(items.drop_last()).push(items.last()@));
    } else {
        assert(items_view(items).len() == 0);
    }
}

/// `members_view` goes member by member.
pub proof fn lemma_members_view(members: Seq<(String, Json)>)
    ensures
        members_view(members).len() == members.len(),
        forall|i: int|
            0 <= i < members.len() ==> #[trigger] members_view(members)[i] == (
                members[i].0@,
                members[i].1@,
            ),
    decreases members.len(),
{
    if members.len() > 0 {
        lemma_members_view(members.drop_last());
        assert(members_view(members) == members_view(members.drop_last()).push(
            (members.last().0@, members.last().1@),
        ));
    } else {
        assert(members_view(members).len() == 0);
    }
}

impl Json {
    /// Tells whether the value is an object.
    pub fn is_object(&self) -> (object: bool)
        ensures
            object == (self@ is Object),
    {
        match self {
            Json::Object(_) => true,
            _ => false,
        }
    }

    /// Looks up the member `name` of an object.
    pub fn get(&self, name: &str) -> (found: Option<&Json>)
        ensures
            match found {
                Some(value) => self@.member(name@) == Some(value@),
                None => self@.member(name@) is None,
            },
    {
        match self {
            Json::Object(members) => {
                let ghost all = self@->Object_0;
                let mut i: usize = members.len();
                proof {
                    lemma_members_view(members@);
                }
                assert(all.take(i as int) =~= all);
                while i > 0
                    invariant
                        i <= members.len(),
                        self@ == JsonView::Object(all),
                        all.len() == members.len(),
                        last_named(all, name@) == last_named(all.take(i as int), name@),
                        forall|k: int|
                            0 <= k < members.len() ==> all[k] == (
                                members[k].0@,
                                members[k].1@,
                            ),
                    decreases i,
                {
                    i -= 1;
                    assert(all.take(i + 1).drop_last() =~= all.take(i as int));
                    assert(all.take(i + 1).last() == all[i as int]);
                    if str_eq(members[i].0.as_str(), name) {
                        return Some(&members[i].1);
                    }
                }
                assert(all.take(0).len() == 0);
                None
            },
            _ => None,
        }
    }
}

} // verus!
