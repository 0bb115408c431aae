//! The five editable name fields and the filename they compose.

use vstd::prelude::*;

verus! {

/// One of the five name fields, in the order in which they compose a name.
#[derive(Clone, Copy, Debug, PartialEq, Eq, Structural)]
pub enum Field {
    Author,
    Series,
    Episode,
    Title,
    Extension,
}

/// A separator that a quick-insert appends to a field.
#[derive(Clone, Copy, Debug, PartialEq, Eq, Structural)]
pub enum Separator {
    Space,
    Dash,
    Comma,
}

/// The text that a quick-insert of `op` appends.
pub open spec fn separator_text(op: Separator) -> Seq<char> {
    match op {
        Separator::Space => seq![' '],
        Separator::Dash => seq![' ', '-', ' '],
        Separator::Comma => seq![',', ' '],
    }
}

/// The text of a separator.
pub fn separator_str(op: Separator) -> (r: &'static str)
    ensures
        r@ == separator_text(op),
{
    match op {
        Separator::Space => {
            proof {
                reveal_strlit(" ");
            }
            " "
        },
        Separator::Dash => {
            proof {
                reveal_strlit(" - ");
            }
            " - "
        },
        Separator::Comma => {
            proof {
                reveal_strlit(", ");
            }
            ", "
        },
    }
}

/// The order in which fields compose a name unless another is given.
pub open spec fn default_order_spec() -> Seq<Field> {
    seq![Field::Author, Field::Series, Field::Episode, Field::Title, Field::Extension]
}

/// The order in which fields compose a name unless another is given:
/// author, series, episode, title, extension.
pub fn default_order() -> (r: Vec<Field>)
    ensures
        r@ == default_order_spec(),
{
    let r = vec![Field::Author, Field::Series, Field::Episode, Field::Title, Field::Extension];
    assert(r@ =~= default_order_spec());
    r
}

/// The five free-text fields from which a new filename is composed.
pub struct FieldSet {
    pub author: String,
    pub series: String,
    pub episode: String,
    pub title: String,
    pub extension: String,
}

impl FieldSet {
    /// The text of field `f`.
    pub open spec fn value(&self, f: Field) -> Seq<char> {
        match f {
            Field::Author => self.author@,
            Field::Series => self.series@,
            Field::Episode => self.episode@,
            Field::Title => self.title@,
            Field::Extension => self.extension@,
        }
    }

    /// Every field is empty.
    pub open spec fn all_empty(&self) -> bool {
        &&& self.author@.len() == 0
        &&& self.series@.len() == 0
        &&& self.episode@.len() == 0
        &&& self.title@.len() == 0
        &&& self.extension@.len() == 0
    }

    /// The composed name: the fields in their fixed order, joined with no
    /// separator (an empty field adds nothing).
    pub open spec fn composed(&self) -> Seq<char> {
        self.author@ + self.series@ + self.episode@ + self.title@ + self.extension@
    }

    /// The texts of the fields listed in `order`, concatenated in that order.
    pub open spec fn composed_in(&self, order: Seq<Field>) -> Seq<char>
        decreases order.len(),
    {
        if order.len() == 0 {
            Seq::empty()
        } else {
            self.composed_in(order.drop_last()) + self.value(order.last())
        }
    }

    /// Composing in the default order gives the composed name.
    pub proof fn lemma_default_order_composes(&self)
        ensures
            self.composed_in(default_order_spec()) == self.composed(),
    {
        reveal_with_fuel(FieldSet::composed_in, 6);
        assert(self.composed_in(default_order_spec()) =~= self.composed());
    }

    /// The name composed from the fields listed in `order`, in that order,
    /// empty fields skipped, with nothing between them.
    pub fn compose_in(&self, order: &Vec<Field>) -> (r: String)
        ensures
            r@ == self.composed_in(order@),
    {
        let mut r = String::new();
        let mut i: usize = 0;
        assert(order@.take(0) =~= Seq::<Field>::empty());
        while i < order.len()
            invariant
                i <= order@.len(),
                r@ == self.composed_in(order@.take(i as int)),
            decreases order@.len() - i,
        {
            Self::append_if_set(&mut r, self.get(order[i]));
            assert(order@.take(i + 1).drop_last() =~= order@.take(i as int));
            i = i + 1;
        }
        assert(order@.take(order@.len() as int) =~= order@);
        r
    }

    /// Five empty fields.
    pub fn new() -> (r: FieldSet)
        ensures
            r.all_empty(),
    {
        FieldSet {
            author: String::new(),
            series: String::new(),
            episode: String::new(),
            title: String::new(),
            extension: String::new(),
        }
    }

    /// The text of field `f`.
    pub fn get(&self, f: Field) -> (r: &String)
        ensures
            r@ == self.value(f),
    {
        match f {
            Field::Author => &self.author,
            Field::Series => &self.series,
            Field::Episode => &self.episode,
            Field::Title => &self.title,
            Field::Extension => &self.extension,
        }
    }

    /// Replaces the text of field `f` with `value`.
    pub fn set(&mut self, f: Field, value: String)
        ensures
            final(self).value(f) == value@,
            forall|g: Field| g != f ==> final(self).value(g) == old(self).value(g),
    {
        match f {
            Field::Author => self.author = value,
            Field::Series => self.series = value,
            Field::Episode => self.episode = value,
            Field::Title => self.title = value,
            Field::Extension => self.extension = value,
        }
    }

    /// Appends `text` to field `f`.
    pub fn append(&mut self, f: Field, text: &str)
        ensures
            final(self).value(f) == old(self).value(f) + text@,
            forall|g: Field| g != f ==> final(self).value(g) == old(self).value(g),
    {
        match f {
            Field::Author => self.author.append(text),
            Field::Series => self.series.append(text),
            Field::Episode => self.episode.append(text),
            Field::Title => self.title.append(text),
            Field::Extension => self.extension.append(text),
        }
    }

    /// Appends the separator `op` to field `f`; repeating it appends again.
    pub fn quick_insert(&mut self, f: Field, op: Separator)
        ensures
            final(self).value(f) == old(self).value(f) + separator_text(op),
            forall|g: Field| g != f ==> final(self).value(g) == old(self).value(g),
    {
        self.append(f, separator_str(op));
    }

    /// Empties every field.
    pub fn clear(&mut self)
        ensures
            final(self).all_empty(),
    {
        *self = FieldSet::new();
    }

    /// The name that the fields compose: the non-empty fields in the order
    /// author, series, episode, title, extension, with nothing between them.
    pub fn compose(&self) -> (r: String)
        ensures
            r@ == self.composed(),
    {
        let mut r = String::new();
        Self::append_if_set(&mut r, &self.author);
        Self::append_if_set(&mut r, &self.series);
        Self::append_if_set(&mut r, &self.episode);
        Self::append_if_set(&mut r, &self.title);
        Self::append_if_set(&mut r, &self.extension);
        r
    }

    /// Appends `part` to `r` where it is not empty.
    fn append_if_set(r: &mut String, part: &String)
        ensures
            final(r)@ == old(r)@ + part@,
    {
        if !part.as_str().is_empty() {
            r.append(part.as_str());
        } else {
            assert(old(r)@ + part@ =~= old(r)@);
        }
    }
}

} // verus!
