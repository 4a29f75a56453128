//! Property declarations and declaration blocks.
use vstd::prelude::*;

verus! {

/// One declaration: a property name and the text of its value.
#[derive(Debug)]
pub struct PropertyDeclaration {
    /// The name of the property.
    pub name: String,
    /// The value, as it is serialized.
    pub value: String,
}

/// What a declaration says: its name and its value.
pub struct DeclarationView {
    pub name: Seq<char>,
    pub value: Seq<char>,
}

/// The declarations of a rule, in the order in which they were written.
#[derive(Debug)]
pub struct PropertyDeclarationBlock {
    pub(crate) declarations: Vec<PropertyDeclaration>,
}

/// The text of one declaration: `name: value;`.
pub open spec fn declaration_css(declaration: DeclarationView) -> Seq<char> {
    declaration.name + ": "@ + declaration.value + ";"@
}

/// The text of a list of declarations: the declarations in order, with one
/// space between two of them.
pub open spec fn declarations_css(declarations: Seq<DeclarationView>) -> Seq<char>
    decreases declarations.len(),
{
    if declarations.len() == 0 {
        Seq::empty()
    } else if declarations.len() == 1 {
        declaration_css(declarations[0])
    } else {
        declarations_css(declarations.drop_last()) + " "@ + declaration_css(declarations.last())
    }
}

/// The declarations of a list, each by its view.
pub open spec fn declarations_view(declarations: Seq<PropertyDeclaration>) -> Seq<DeclarationView> {
    Seq::new(declarations.len(), |i: int| declarations[i]@)
}

impl PropertyDeclaration {
    pub open spec fn view(&self) -> DeclarationView {
        DeclarationView { name: self.name@, value: self.value@ }
    }

    /// A declaration of `value` for the property `name`.
    pub fn new(name: String, value: String) -> (declaration: PropertyDeclaration)
        ensures
            declaration@ == (DeclarationView { name: name@, value: value@ }),
    {
        PropertyDeclaration { name, value }
    }

    /// A copy of this declaration.
    pub fn duplicate(&self) -> (copy: PropertyDeclaration)
        ensures
            copy@ == self@,
    {
        PropertyDeclaration { name: self.name.clone(), value: self.value.clone() }
    }

    /// Serialize the declaration onto `dest`.
    pub fn to_css(&self, dest: &mut String)
        ensures
            final(dest)@ == old(dest)@ + declaration_css(self@),
    {
        dest.append(self.name.as_str());
        dest.append(": ");
        dest.append(self.value.as_str());
        dest.append(";");
        assert(dest@ == old(dest)@ + declaration_css(self@));
    }
}

impl PropertyDeclarationBlock {
    pub open(crate) spec fn view(&self) -> Seq<DeclarationView> {
        declarations_view(self.declarations@)
    }

    /// A block without declarations.
    pub fn new() -> (block: PropertyDeclarationBlock)
        ensures
            block@ == Seq::<DeclarationView>::empty(),
    {
        PropertyDeclarationBlock { declarations: Vec::new() }
    }

    /// A block with the given declarations.
    pub fn with_declarations(declarations: Vec<PropertyDeclaration>) -> (block: PropertyDeclarationBlock)
        ensures
            block@ == declarations_view(declarations@),
    {
        PropertyDeclarationBlock { declarations }
    }

    /// The declarations in this block.
    pub fn declarations(&self) -> (declarations: &Vec<PropertyDeclaration>)
        ensures
            declarations_view(declarations@) == self@,
    {
        &self.declarations
    }

    /// The number of declarations in this block.
    pub fn len(&self) -> (len: usize)
        ensures
            len == self@.len(),
    {
        self.declarations.len()
    }

    /// Returns whether this block contains no declaration.
    pub fn is_empty(&self) -> (empty: bool)
        ensures
            empty == (self@.len() == 0),
    {
        self.declarations.len() == 0
    }

    /// Adds a declaration at the end of the block.
    pub fn push(&mut self, declaration: PropertyDeclaration)
        ensures
            final(self)@ == old(self)@.push(declaration@),
    {
        self.declarations.push(declaration);
        assert(self@ =~= old(self)@.push(declaration@));
    }

    /// A copy of this block.
    pub fn duplicate(&self) -> (copy: PropertyDeclarationBlock)
        ensures
            copy@ == self@,
    {
        let mut declarations: Vec<PropertyDeclaration> = Vec::new();
        let mut i: usize = 0;
        while i < self.declarations.len()
            invariant
                i <= self.declarations.len(),
                declarations_view(declarations@) == self@.take(i as int),
            decreases self.declarations.len() - i,
        {
            let ghost before = declarations@;
            declarations.push(self.declarations[i].duplicate());
            i += 1;
            proof {
                assert(declarations_view(before) == self@.take(i - 1));
                assert(declarations@ == before.push(declarations@.last()));
                assert(declarations_view(declarations@) =~= declarations_view(before).push(
                    self.declarations[i - 1]@,
                ));
                assert(declarations_view(declarations@) =~= self@.take(i as int));
            }
        }
        assert(self@.take(i as int) =~= self@);
        PropertyDeclarationBlock { declarations }
    }

    /// Serialize the declarations onto `dest`, one space between two of them.
    pub fn to_css(&self, dest: &mut String)
        ensures
            final(dest)@ == old(dest)@ + declarations_css(self@),
    {
        let mut i: usize = 0;
        while i < self.declarations.len()
            invariant
                i <= self.declarations.len(),
                dest@ == old(dest)@ + declarations_css(self@.take(i as int)),
            decreases self.declarations.len() - i,
        {
            if i > 0 {
                dest.append(" ");
            }
            self.declarations[i].to_css(dest);
            proof {
                let next = self@.take(i + 1);
                assert(next.drop_last() =~= self@.take(i as int));
                assert(next.last() == self.declarations[i as int]@);
                if i == 0 {
                    assert(declarations_css(self@.take(0)) =~= Seq::<char>::empty());
                }
                assert(dest@ =~= old(dest)@ + declarations_css(next));
            }
            i += 1;
        }
        assert(self@.take(i as int) =~= self@);
    }
}

} // verus!
