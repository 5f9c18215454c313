use vstd::prelude::*;

verus! {

/// The largest size an object can have.
pub const MAX_SIZE: u16 = 100;

/// A colour as red, green, blue and alpha channels.
#[derive(Clone, Copy, PartialEq, Eq, Structural, Debug)]
pub struct Colour {
    pub r: u8,
    pub g: u8,
    pub b: u8,
    pub a: u8,
}

impl Colour {
    /// Fully transparent black, the colour of a new object.
    pub open spec fn spec_transparent() -> Colour {
        Colour { r: 0, g: 0, b: 0, a: 0 }
    }

    pub fn transparent() -> (r: Colour)
        ensures
            r == Colour::spec_transparent(),
    {
        Colour { r: 0, g: 0, b: 0, a: 0 }
    }
}

/// What an object holds: its name, its size and its colour.
pub struct ObjectView {
    pub name: Seq<char>,
    pub size: nat,
    pub colour: Colour,
}

/// An editable object of the hierarchy. Its size never leaves `0..=MAX_SIZE`.
pub struct ObjectConfig {
    name: String,
    size: u16,
    colour: Colour,
}

impl View for ObjectConfig {
    type V = ObjectView;

    closed spec fn view(&self) -> ObjectView {
        ObjectView { name: self.name@, size: self.size as nat, colour: self.colour }
    }
}

/// What a new object named `name` holds.
pub open spec fn fresh_object(name: Seq<char>) -> ObjectView {
    ObjectView { name, size: 0, colour: Colour::spec_transparent() }
}

impl ObjectConfig {
    #[verifier::type_invariant]
    spec fn size_in_range(&self) -> bool {
        self.size <= MAX_SIZE
    }

    /// A new object with the given name, size 0 and a transparent colour.
    pub fn new(name: &str) -> (r: ObjectConfig)
        ensures
            r@ == fresh_object(name@),
    {
        ObjectConfig { name: name.to_owned(), size: 0, colour: Colour::transparent() }
    }

    pub fn name(&self) -> (r: &str)
        ensures
            r@ == self@.name,
    {
        self.name.as_str()
    }

    /// The size, which lies in `0..=MAX_SIZE` whatever was done to the object.
    pub fn size(&self) -> (r: u16)
        ensures
            r as nat == self@.size,
            r <= MAX_SIZE,
    {
        proof {
            use_type_invariant(self);
        }
        self.size
    }

    pub fn colour(&self) -> (r: Colour)
        ensures
            r == self@.colour,
    {
        self.colour
    }

    /// Sets the size, held to `0..=MAX_SIZE`: a larger value becomes `MAX_SIZE`.
    pub fn set_size(&mut self, size: u16)
        ensures
            final(self)@.size == if size <= MAX_SIZE { size as nat } else { MAX_SIZE as nat },
            final(self)@.name == old(self)@.name,
            final(self)@.colour == old(self)@.colour,
    {
        if size <= MAX_SIZE {
            self.size = size;
        } else {
            self.size = MAX_SIZE;
        }
    }

    pub fn set_colour(&mut self, colour: Colour)
        ensures
            final(self)@ == (ObjectView { colour, ..old(self)@ }),
    {
        proof {
            use_type_invariant(&*self);
        }
        self.colour = colour;
    }
}

impl Default for ObjectConfig {
    fn default() -> (r: ObjectConfig)
        ensures
            r@ == fresh_object(Seq::empty()),
    {
        ObjectConfig { name: String::new(), size: 0, colour: Colour::transparent() }
    }
}

/// An entry of the hierarchy: a plain object, or one that stands for a media file.
pub enum Asset {
    Object(ObjectConfig),
    Media(ObjectConfig, String),
}

impl Default for Asset {
    fn default() -> (r: Asset)
        ensures
            r matches Asset::Object(o) && o@ == fresh_object(Seq::empty()),
    {
        Asset::Object(ObjectConfig::default())
    }
}

/// The hierarchy panel: the entries in the order they were added, and the name editor
/// used to add a new one.
pub struct HierarchyState {
    /// Whether the name editor for a new entry is open.
    pub adding: bool,
    /// The text of the name editor.
    pub new_name: String,
    pub assets: Vec<Asset>,
}

impl HierarchyState {
    /// An empty hierarchy with the name editor closed and empty.
    pub fn new() -> (r: HierarchyState)
        ensures
            !r.adding,
            r.new_name@.len() == 0,
            r.assets@.len() == 0,
    {
        HierarchyState { adding: false, new_name: String::new(), assets: Vec::new() }
    }

    /// Starts a frame of the panel: the name editor opens when the add button was clicked
    /// and stays open while an addition is under way. Returns whether it is open.
    pub fn open_editor(&mut self, add_clicked: bool) -> (open: bool)
        ensures
            open == (add_clicked || old(self).adding),
            final(self).adding == open,
            final(self).new_name == old(self).new_name,
            final(self).assets == old(self).assets,
    {
        if add_clicked {
            self.adding = true;
        }
        self.adding
    }

    /// Appends an object named after the editor's text, then empties and closes the
    /// editor. The name may repeat one already present. Does nothing when
    /// the editor is closed; returns whether an object was added.
    pub fn confirm(&mut self) -> (added: bool)
        ensures
            added == old(self).adding,
            added ==> {
                &&& final(self).assets@.len() == old(self).assets@.len() + 1
                &&& final(self).assets@.drop_last() == old(self).assets@
                &&& final(self).assets@.last() matches Asset::Object(o)
                    && o@ == fresh_object(old(self).new_name@)
                &&& final(self).new_name@.len() == 0
                &&& !final(self).adding
            },
            !added ==> *final(self) == *old(self),
    {
        if !self.adding {
            return false;
        }
        let ghost before = self.assets@;
        let obj = ObjectConfig::new(self.new_name.as_str());
        self.assets.push(Asset::Object(obj));
        assert(self.assets@.drop_last() =~= before);
        self.new_name = String::new();
        self.adding = false;
        true
    }

    /// Appends a plain object with the given name.
    pub fn push_object(&mut self, name: &str)
        ensures
            final(self).assets@.len() == old(self).assets@.len() + 1,
            final(self).assets@.drop_last() == old(self).assets@,
            final(self).assets@.last() matches Asset::Object(o) && o@ == fresh_object(name@),
            final(self).adding == old(self).adding,
            final(self).new_name == old(self).new_name,
    {
        let ghost before = self.assets@;
        self.assets.push(Asset::Object(ObjectConfig::new(name)));
        assert(self.assets@.drop_last() =~= before);
    }
}

} // verus!
