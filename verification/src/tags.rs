//! Type tags: what the emitted code knows of a Move type at run time, and
//! what a generator knows of the type of a field.

use vstd::prelude::*;

verus! {

pub const NAME_SEPARATOR: &'static str = "::";

/// The type of a Move value.
pub enum TypeTag {
    /// A type that is no struct, by its name: `u64`, `address`,
    /// `vector<u8>`.
    Plain(String),
    /// A struct type: where it is declared, its name there, and the types
    /// it is instantiated with.
    Struct { address: String, module: String, name: String, type_params: Vec<TypeTag> },
}

/// A [`TypeTag`] as mathematics.
pub enum Tag {
    Plain(Seq<char>),
    Struct { address: Seq<char>, module: Seq<char>, name: Seq<char>, type_params: Seq<Tag> },
}

/// The tag that `tag` stands for.
pub open spec fn tag_of(tag: TypeTag) -> Tag
    decreases tag,
{
    match tag {
        TypeTag::Plain(name) => Tag::Plain(name@),
        TypeTag::Struct { address, module, name, type_params } => Tag::Struct {
            address: address@,
            module: module@,
            name: name@,
            type_params: Seq::new(
                type_params.len() as nat,
                |i: int|
                    if 0 <= i < type_params.len() {
                        tag_of(type_params[i])
                    } else {
                        arbitrary()
                    },
            ),
        },
    }
}

impl View for TypeTag {
    type V = Tag;

    open spec fn view(&self) -> Tag {
        tag_of(*self)
    }
}

/// The name of a struct type without its type parameters:
/// `<address>::<module>::<name>`.
pub open spec fn paramless_name(address: Seq<char>, module: Seq<char>, name: Seq<char>) -> Seq<
    char,
> {
    address + NAME_SEPARATOR@ + module + NAME_SEPARATOR@ + name
}

/// A field of a struct, as its declaration gives it: its name and the tag
/// of its type.
pub struct FieldDecl {
    pub name: String,
    pub type_tag: TypeTag,
}

/// A [`FieldDecl`] as mathematics.
pub struct Field {
    pub name: Seq<char>,
    pub type_tag: Tag,
}

impl View for FieldDecl {
    type V = Field;

    open spec fn view(&self) -> Field {
        Field { name: self.name@, type_tag: self.type_tag@ }
    }
}

/// The view of a struct tag, field by field.
pub proof fn lemma_struct_tag_view(tag: TypeTag)
    requires
        tag is Struct,
    ensures
        tag@ is Struct,
        tag@->address == tag->address@,
        tag@->module == tag->module@,
        tag@->name == tag->name@,
        tag@->type_params.len() == tag->type_params.len(),
        forall|i: int|
            0 <= i < tag->type_params.len() ==> (#[trigger] tag@->type_params[i])
                == tag->type_params[i]@,
{
    reveal_with_fuel(tag_of, 2);
}

impl Clone for TypeTag {
    fn clone(&self) -> (copy: Self)
        ensures
            copy@ == self@,
        decreases self,
    {
        match self {
            TypeTag::Plain(name) => TypeTag::Plain(name.clone()),
            TypeTag::Struct { address, module, name, type_params } => {
                let mut params: Vec<TypeTag> = Vec::new();
                let mut i: usize = 0;
                while i < type_params.len()
                    invariant
                        i <= type_params.len(),
                        params.len() == i,
                        self is Struct,
                        self->type_params == *type_params,
                        forall|j: int| 0 <= j < i ==> params[j]@ == type_params[j]@,
                    decreases type_params.len() - i,
                {
                    let param = type_params[i].clone();
                    params.push(param);
                    i += 1;
                }
                let copy = TypeTag::Struct {
                    address: address.clone(),
                    module: module.clone(),
                    name: name.clone(),
                    type_params: params,
                };
                assert(copy@->type_params =~= self@->type_params);
                copy
            },
        }
    }
}

} // verus!
