//! Symbol operations: functions, global variables and their addresses.

use crate::llvm::attributes::{Attr, AttrModel, AttributeDict};
use crate::llvm::dialect::Dialect;
use crate::llvm::identifier::{valid_identifier, Identifier};
use crate::llvm::ops::call::CallTypeErr;
use crate::llvm::syntax::{
    after_blanks, lemma_identifier_bounds, lemma_read_identifier,
    parse_identifier, parse_mark, read_identifier, read_mark, skip_blanks,
};
use crate::llvm::types::{duplicate_types, lemma_members, models, FuncType, Type, TypeModel, GENERIC};
use crate::text::{decimal, push_decimal, whitespace};
use vstd::prelude::*;

verus! {

/// The key of the name of a symbol.
pub const ATTR_KEY_SYM_NAME: &'static str = "builtin_sym_name";

/// The key of the type of a function.
pub const ATTR_KEY_LLVM_FUNC_TYPE: &'static str = "llvm_func_type";

/// The key of the type of a global variable.
pub const ATTR_KEY_LLVM_GLOBAL_TYPE: &'static str = "llvm_global_type";

/// The key of the initial value of a global variable.
pub const ATTR_KEY_GLOBAL_INITIALIZER: &'static str = "global_initializer";

/// The key of the alignment of a global variable.
pub const ATTR_KEY_LLVM_ALIGNMENT: &'static str = "llvm_alignment";

/// The key of the address space of a global variable.
pub const ATTR_KEY_LLVM_GLOBAL_ADDRESS_SPACE: &'static str = "llvm_global_address_space";

/// The keys are six different ones.
pub proof fn keys_differ()
    ensures
        ATTR_KEY_SYM_NAME@ != ATTR_KEY_LLVM_FUNC_TYPE@,
        ATTR_KEY_SYM_NAME@ != ATTR_KEY_LLVM_GLOBAL_TYPE@,
        ATTR_KEY_SYM_NAME@ != ATTR_KEY_GLOBAL_INITIALIZER@,
        ATTR_KEY_SYM_NAME@ != ATTR_KEY_LLVM_ALIGNMENT@,
        ATTR_KEY_SYM_NAME@ != ATTR_KEY_LLVM_GLOBAL_ADDRESS_SPACE@,
        ATTR_KEY_LLVM_FUNC_TYPE@ != ATTR_KEY_LLVM_GLOBAL_TYPE@,
        ATTR_KEY_LLVM_FUNC_TYPE@ != ATTR_KEY_GLOBAL_INITIALIZER@,
        ATTR_KEY_LLVM_FUNC_TYPE@ != ATTR_KEY_LLVM_ALIGNMENT@,
        ATTR_KEY_LLVM_FUNC_TYPE@ != ATTR_KEY_LLVM_GLOBAL_ADDRESS_SPACE@,
        ATTR_KEY_LLVM_GLOBAL_TYPE@ != ATTR_KEY_GLOBAL_INITIALIZER@,
        ATTR_KEY_LLVM_GLOBAL_TYPE@ != ATTR_KEY_LLVM_ALIGNMENT@,
        ATTR_KEY_LLVM_GLOBAL_TYPE@ != ATTR_KEY_LLVM_GLOBAL_ADDRESS_SPACE@,
        ATTR_KEY_GLOBAL_INITIALIZER@ != ATTR_KEY_LLVM_ALIGNMENT@,
        ATTR_KEY_GLOBAL_INITIALIZER@ != ATTR_KEY_LLVM_GLOBAL_ADDRESS_SPACE@,
        ATTR_KEY_LLVM_ALIGNMENT@ != ATTR_KEY_LLVM_GLOBAL_ADDRESS_SPACE@,
{
    reveal_strlit("builtin_sym_name");
    reveal_strlit("llvm_func_type");
    reveal_strlit("llvm_global_type");
    reveal_strlit("global_initializer");
    reveal_strlit("llvm_alignment");
    reveal_strlit("llvm_global_address_space");
    assert(ATTR_KEY_SYM_NAME@[0] == 'b');
    assert(ATTR_KEY_LLVM_FUNC_TYPE@[5] == 'f');
    assert(ATTR_KEY_LLVM_ALIGNMENT@[5] == 'a');
    assert(ATTR_KEY_LLVM_GLOBAL_TYPE@.len() == 16);
    assert(ATTR_KEY_GLOBAL_INITIALIZER@.len() == 18);
    assert(ATTR_KEY_LLVM_GLOBAL_ADDRESS_SPACE@.len() == 25);
}

/// What is wrong with the use of a symbol.
#[derive(Debug)]
pub enum SymbolUserOpVerifyErr {
    /// No symbol has the name.
    SymbolNotFound(String),
    /// The symbol is no function.
    NotLlvmFunc(String),
    /// The symbol is neither a function nor a global variable.
    AddressOfInvalidReference,
    /// The call does not fit the type of the function.
    FuncTypeErr(CallTypeErr),
}

impl SymbolUserOpVerifyErr {
    /// The text of the error, given how the two types of a mismatch print.
    pub open spec fn text(self, expected_text: Seq<char>, found_text: Seq<char>) -> Seq<char> {
        match self {
            SymbolUserOpVerifyErr::SymbolNotFound(name) => "Symbol "@ + name@ + " not found"@,
            SymbolUserOpVerifyErr::NotLlvmFunc(name) => {
                "Function "@ + name@ + " should have been llvm.func type"@
            },
            SymbolUserOpVerifyErr::AddressOfInvalidReference => {
                "AddressOf Op can only refer to a function or a global variable"@
            },
            SymbolUserOpVerifyErr::FuncTypeErr(cause) => {
                "Function call has incorrect type: "@ + cause.text(expected_text, found_text)
            },
        }
    }

    /// The text of the error, given how the two types of a mismatch print.
    pub fn message(&self, expected_text: &str, found_text: &str) -> (message: String)
        ensures
            message@ == self.text(expected_text@, found_text@),
    {
        match self {
            SymbolUserOpVerifyErr::SymbolNotFound(name) => {
                let mut message = "Symbol ".to_owned();
                message.append(name.as_str());
                message.append(" not found");
                message
            },
            SymbolUserOpVerifyErr::NotLlvmFunc(name) => {
                let mut message = "Function ".to_owned();
                message.append(name.as_str());
                message.append(" should have been llvm.func type");
                message
            },
            SymbolUserOpVerifyErr::AddressOfInvalidReference => {
                "AddressOf Op can only refer to a function or a global variable".to_owned()
            },
            SymbolUserOpVerifyErr::FuncTypeErr(cause) => {
                let mut message = "Function call has incorrect type: ".to_owned();
                message.append(cause.message(expected_text, found_text).as_str());
                message
            },
        }
    }
}

/// A function operation whose type is no function type.
#[derive(Clone, Copy, Debug, PartialEq, Eq, Structural)]
pub struct FuncOpTypeErr;

impl FuncOpTypeErr {
    /// The text of the error.
    pub fn message(&self) -> (message: &'static str)
        ensures
            message@ == "llvm.func op does not have llvm.func type"@,
    {
        "llvm.func op does not have llvm.func type"
    }
}

/// A block: its label and the types of its arguments.
#[derive(Debug)]
pub struct Block {
    pub label: Option<String>,
    pub arg_types: Vec<Type>,
}

/// A region: its blocks, the entry first.
#[derive(Debug)]
pub struct Region {
    pub blocks: Vec<Block>,
}

/// The region holds one block, named `entry`, with arguments of these types.
pub open spec fn entry_only(region: Region, args: Seq<TypeModel>) -> bool {
    &&& region.blocks@.len() == 1
    &&& region.blocks@[0].label matches Some(label) && label@ == "entry"@
    &&& models(region.blocks@[0].arg_types@) == args
}

/// A region with an entry block and nothing else.
fn entry_region(args: Vec<Type>) -> (region: Region)
    ensures
        entry_only(region, models(args@)),
{
    let entry = Block { label: Some("entry".to_owned()), arg_types: args };
    let mut blocks: Vec<Block> = Vec::new();
    blocks.push(entry);
    Region { blocks }
}

/// Why the text of a symbol operation was not read.
#[derive(Clone, Copy, Debug, PartialEq, Eq, Structural)]
pub enum SymbolParseErr {
    /// A function has no results, and so many were named.
    FuncResults(usize),
    /// A global variable has no results, and some were named.
    GlobalResults,
    /// The text is not of the form that was expected.
    Syntax,
}

impl SymbolParseErr {
    /// The text of the error, given how the reader describes a syntax error.
    pub open spec fn text(self, description: Seq<char>) -> Seq<char> {
        match self {
            SymbolParseErr::FuncResults(found) => {
                "Expected 0 result(s), but found "@ + decimal(found as nat) + " results"@
            },
            SymbolParseErr::GlobalResults => "GlobalOp must cannot have results"@,
            SymbolParseErr::Syntax => description,
        }
    }

    /// The text of the error, given how the reader describes a syntax error.
    pub fn message(&self, description: &str) -> (message: String)
        ensures
            message@ == self.text(description@),
    {
        match self {
            SymbolParseErr::FuncResults(found) => {
                let mut message = "Expected 0 result(s), but found ".to_owned();
                push_decimal(&mut message, *found as u64);
                message.append(" results");
                message
            },
            SymbolParseErr::GlobalResults => "GlobalOp must cannot have results".to_owned(),
            SymbolParseErr::Syntax => description.to_owned(),
        }
    }
}

/// The name in `@name :`, and where the type behind it begins.
pub open spec fn read_symbol(text: Seq<char>, at: int) -> Option<(Seq<char>, int)> {
    match read_mark(text, at, '@') {
        None => None,
        Some(behind) => match read_identifier(text, behind) {
            None => None,
            Some((name, end)) => match read_mark(text, after_blanks(text, end), ':') {
                None => None,
                Some(next) => Some((name, after_blanks(text, next))),
            },
        },
    }
}

/// Reads `@name :` and the blanks behind it.
fn parse_symbol(text: &[char], at: usize) -> (read: Option<(Identifier, usize)>)
    requires
        at <= text.len(),
    ensures
        match read_symbol(text@, at as int) {
            Some((name, next)) => read matches Some(found) && found.0@ == name && found.1 == next
                && found.1 <= text.len(),
            None => read is None,
        },
{
    let behind: usize = match parse_mark(text, at, '@') {
        None => {
            return None;
        },
        Some(behind) => behind,
    };
    let (name, end): (String, usize) = match parse_identifier(text, behind) {
        None => {
            return None;
        },
        Some(found) => found,
    };
    proof {
        lemma_identifier_bounds(text@, behind as int);
        assert(valid_identifier(name@));
    }
    match parse_mark(text, skip_blanks(text, end), ':') {
        None => None,
        Some(next) => match Identifier::try_new(name) {
            Ok(symbol) => Some((symbol, skip_blanks(text, next))),
            Err(_) => None,
        },
    }
}

/// A function: a definition if it has a body, else a declaration.
#[derive(Debug)]
pub struct FuncOp {
    pub attributes: AttributeDict,
    pub region: Option<Region>,
}

impl FuncOp {
    /// The name of the function, if it has one.
    pub open spec fn symbol(self) -> Option<Seq<char>> {
        named_symbol(self.attributes@)
    }

    /// The type of the function, if it has one that is a function type.
    pub open spec fn signature(self) -> Option<TypeModel> {
        if self.attributes@.contains_key(ATTR_KEY_LLVM_FUNC_TYPE@) {
            match self.attributes@[ATTR_KEY_LLVM_FUNC_TYPE@] {
                AttrModel::Type(ty) => if ty is Func {
                    Some(ty)
                } else {
                    None
                },
                _ => None,
            }
        } else {
            None
        }
    }

    /// A function of this name and type, without a body.
    pub fn new(name: Identifier, ty: FuncType) -> (op: FuncOp)
        ensures
            op.attributes@ == Map::<Seq<char>, AttrModel>::empty().insert(
                ATTR_KEY_SYM_NAME@,
                AttrModel::Identifier(name@),
            ).insert(ATTR_KEY_LLVM_FUNC_TYPE@, AttrModel::Type(ty@)),
            op.region is None,
            op.symbol() == Some(name@),
            op.signature() == Some(ty@),
    {
        let mut attributes = AttributeDict::new();
        attributes.set(ATTR_KEY_SYM_NAME, Attr::Identifier(name));
        let ghost model = ty@;
        let ty = Type::Func(ty);
        proof {
            lemma_members(ty);
            keys_differ();
        }
        attributes.set(ATTR_KEY_LLVM_FUNC_TYPE, Attr::Type(ty));
        FuncOp { attributes, region: None }
    }

    /// The name of the function.
    pub fn get_symbol_name(&self) -> (name: &Identifier)
        requires
            self.symbol() is Some,
        ensures
            self.symbol() == Some(name@),
    {
        symbol_name(&self.attributes)
    }

    /// The type of the function.
    pub fn get_type(&self) -> (ty: &FuncType)
        requires
            self.signature() is Some,
        ensures
            self.signature() == Some(ty@),
    {
        match self.attributes.get(ATTR_KEY_LLVM_FUNC_TYPE) {
            Some(Attr::Type(ty)) => {
                proof {
                    lemma_members(*ty);
                }
                match ty {
                    Type::Func(func) => func,
                    _ => vstd::pervasive::unreached(),
                }
            },
            _ => vstd::pervasive::unreached(),
        }
    }

    /// The entry block, if the function has one.
    pub fn get_entry_block(&self) -> (entry: Option<&Block>)
        ensures
            match self.region {
                Some(region) => if region.blocks@.len() > 0 {
                    entry == Some(&region.blocks@[0])
                } else {
                    entry is None
                },
                None => entry is None,
            },
    {
        match &self.region {
            Some(region) => if region.blocks.len() > 0 {
                Some(&region.blocks[0])
            } else {
                None
            },
            None => None,
        }
    }

    /// Gives the function an entry block, with an argument for each of its own,
    /// unless it has one.
    pub fn get_or_create_entry_block(&mut self) -> (entry: &Block)
        requires
            old(self).region matches Some(region) ==> region.blocks@.len() > 0,
            old(self).region is None ==> old(self).signature() is Some,
        ensures
            final(self).attributes@ == old(self).attributes@,
            match old(self).region {
                Some(region) => final(self).region == Some(region),
                None => final(self).region matches Some(region) && entry_only(
                    region,
                    old(self).signature()->Some_0->args,
                ),
            },
            final(self).region matches Some(region) && *entry == region.blocks@[0],
    {
        if self.region.is_none() {
            let args = duplicate_types(&self.get_type().args);
            self.region = Some(entry_region(args));
        }
        match &self.region {
            Some(region) => &region.blocks[0],
            None => vstd::pervasive::unreached(),
        }
    }

    /// Whether the function is only declared.
    pub fn is_declaration(&self) -> (declared: bool)
        ensures
            declared == (self.region is None),
    {
        self.region.is_none()
    }

    /// The keys of the attributes that the header of the function shows.
    pub open spec fn header_keys() -> Seq<Seq<char>> {
        seq![ATTR_KEY_LLVM_FUNC_TYPE@, ATTR_KEY_SYM_NAME@]
    }

    /// The attributes that are printed behind the header.
    pub fn separate_attributes(&self) -> (attributes: AttributeDict)
        ensures
            attributes@ == self.attributes.printed(Self::header_keys()),
    {
        let keys: [&str; 2] = [ATTR_KEY_LLVM_FUNC_TYPE, ATTR_KEY_SYM_NAME];
        proof {
            assert(Seq::new(keys@.len(), |i: int| keys@[i]@) =~= Self::header_keys());
        }
        self.attributes.without(keys.as_slice())
    }

    /// The text of the function, given the texts of its type, of a line break
    /// with the indentation, of its [`FuncOp::separate_attributes`] and of its
    /// body.
    pub fn print(
        &self,
        type_text: &str,
        line_break: &str,
        attributes_text: &str,
        region_text: &str,
    ) -> (text: String)
        requires
            self.symbol() is Some,
        ensures
            text@ == "llvm.func @"@ + self.symbol()->Some_0 + ": "@ + type_text@ + line_break@
                + attributes_text@ + (if self.region is Some {
                " "@ + region_text@
            } else {
                seq![]
            }),
    {
        let mut text = "llvm.func @".to_owned();
        text.append(self.get_symbol_name().as_str());
        text.append(": ");
        text.append(type_text);
        text.append(line_break);
        text.append(attributes_text);
        let ghost before = text@;
        if self.region.is_some() {
            text.append(" ");
            text.append(region_text);
            proof {
                assert(text@ =~= before + (" "@ + region_text@));
            }
        } else {
            proof {
                assert(before =~= before + Seq::<char>::empty());
            }
        }
        text
    }

    /// Reads the header of a function, `@name :`, for which `results` results
    /// were named. Says where the type is expected.
    pub fn parse(results: usize, text: &[char], at: usize) -> (read: Result<
        (FuncHeader, usize),
        SymbolParseErr,
    >)
        requires
            at <= text.len(),
        ensures
            if results > 0 {
                read == Err::<(FuncHeader, usize), _>(SymbolParseErr::FuncResults(results))
            } else {
                match read_symbol(text@, after_blanks(text@, at as int)) {
                    Some((name, next)) => read matches Ok(found) && found.0.name@ == name && found.1
                        == next && found.1 <= text.len(),
                    None => read == Err::<(FuncHeader, usize), _>(SymbolParseErr::Syntax),
                }
            },
    {
        if results > 0 {
            return Err(SymbolParseErr::FuncResults(results));
        }
        match parse_symbol(text, skip_blanks(text, at)) {
            Some((name, next)) => Ok((FuncHeader { name }, next)),
            None => Err(SymbolParseErr::Syntax),
        }
    }
}

/// A function of which the name was read.
#[derive(Debug)]
pub struct FuncHeader {
    pub name: Identifier,
}

/// A function of which name and type were read.
#[derive(Debug)]
pub struct FuncTyped {
    pub name: Identifier,
    pub ty: Type,
}

/// A function of which all but the body was read.
#[derive(Debug)]
pub struct FuncAttributed {
    pub name: Identifier,
    pub ty: Type,
    pub attributes: AttributeDict,
}

impl FuncHeader {
    /// Goes on behind the type, which ended at `end`. Says where the
    /// attributes are expected.
    pub fn with_type(self, text: &[char], ty: Type, end: usize) -> (read: (FuncTyped, usize))
        requires
            end <= text.len(),
        ensures
            read.0.name == self.name,
            read.0.ty == ty,
            read.1 == after_blanks(text@, end as int),
            read.1 <= text.len(),
    {
        (FuncTyped { name: self.name, ty }, skip_blanks(text, end))
    }
}

impl FuncTyped {
    /// Goes on behind the attributes, which ended at `end`. Says where a body
    /// may begin.
    pub fn with_attributes(self, text: &[char], attributes: AttributeDict, end: usize) -> (read: (
        FuncAttributed,
        usize,
    ))
        requires
            end <= text.len(),
        ensures
            read.0.name == self.name,
            read.0.ty == self.ty,
            read.0.attributes == attributes,
            read.1 == after_blanks(text@, end as int),
            read.1 <= text.len(),
    {
        (FuncAttributed { name: self.name, ty: self.ty, attributes }, skip_blanks(text, end))
    }
}

impl FuncAttributed {
    /// The function, of which the body, if it has one, ended at `end`, and
    /// where reading goes on. Name and type go by the header, also where the
    /// attributes hold others.
    pub fn with_region(self, text: &[char], region: Option<Region>, end: usize) -> (read: (
        FuncOp,
        usize,
    ))
        requires
            end <= text.len(),
        ensures
            read.0.attributes@ == self.attributes@.insert(
                ATTR_KEY_SYM_NAME@,
                AttrModel::Identifier(self.name@),
            ).insert(ATTR_KEY_LLVM_FUNC_TYPE@, AttrModel::Type(self.ty@)),
            read.0.region == region,
            read.1 == after_blanks(text@, end as int),
            read.1 <= text.len(),
    {
        let mut attributes = self.attributes;
        attributes.set(ATTR_KEY_SYM_NAME, Attr::Identifier(self.name));
        attributes.set(ATTR_KEY_LLVM_FUNC_TYPE, Attr::Type(self.ty));
        (FuncOp { attributes, region }, skip_blanks(text, end))
    }
}

/// The name that the attributes give a symbol.
pub open spec fn named_symbol(attributes: Map<Seq<char>, AttrModel>) -> Option<Seq<char>> {
    if attributes.contains_key(ATTR_KEY_SYM_NAME@) {
        match attributes[ATTR_KEY_SYM_NAME@] {
            AttrModel::Identifier(name) => Some(name),
            _ => None,
        }
    } else {
        None
    }
}

/// The name that the attributes give a symbol.
fn symbol_name(attributes: &AttributeDict) -> (name: &Identifier)
    requires
        named_symbol(attributes@) is Some,
    ensures
        named_symbol(attributes@) == Some(name@),
{
    match attributes.get(ATTR_KEY_SYM_NAME) {
        Some(Attr::Identifier(name)) => name,
        _ => vstd::pervasive::unreached(),
    }
}

/// What is wrong with a [`GlobalOp`].
#[derive(Clone, Copy, Debug, PartialEq, Eq, Structural)]
pub enum GlobalOpVerifyErr {
    MissingType,
}

impl GlobalOpVerifyErr {
    /// The text of the error.
    pub open spec fn text(self) -> Seq<char> {
        match self {
            GlobalOpVerifyErr::MissingType => "GlobalOp must have a type"@,
        }
    }

    /// The text of the error.
    pub fn message(&self) -> (message: &'static str)
        ensures
            message@ == self.text(),
    {
        match self {
            GlobalOpVerifyErr::MissingType => "GlobalOp must have a type",
        }
    }
}

/// What a global variable starts with.
#[derive(Debug)]
pub enum Initializer {
    /// A value.
    Value(Attr),
    /// A region that computes the value.
    Region(Region),
}

/// A global variable. Its initial value is an attribute, or a region computes
/// it.
#[derive(Debug)]
pub struct GlobalOp {
    pub attributes: AttributeDict,
    pub regions: Vec<Region>,
}

/// The attributes of a new global variable.
pub open spec fn global_attributes(name: Seq<char>, ty: TypeModel) -> Map<Seq<char>, AttrModel> {
    Map::<Seq<char>, AttrModel>::empty().insert(
        ATTR_KEY_SYM_NAME@,
        AttrModel::Identifier(name),
    ).insert(ATTR_KEY_LLVM_GLOBAL_TYPE@, AttrModel::Type(ty)).insert(
        ATTR_KEY_LLVM_GLOBAL_ADDRESS_SPACE@,
        AttrModel::AddressSpace(GENERIC),
    )
}

impl GlobalOp {
    /// The name of the variable, if it has one.
    pub open spec fn symbol(self) -> Option<Seq<char>> {
        named_symbol(self.attributes@)
    }

    /// The type of the variable, if it has one.
    pub open spec fn value_type(self) -> Option<TypeModel> {
        if self.attributes@.contains_key(ATTR_KEY_LLVM_GLOBAL_TYPE@) {
            match self.attributes@[ATTR_KEY_LLVM_GLOBAL_TYPE@] {
                AttrModel::Type(ty) => Some(ty),
                _ => None,
            }
        } else {
            None
        }
    }

    /// The alignment of the variable, if it has one.
    pub open spec fn alignment(self) -> Option<u64> {
        if self.attributes@.contains_key(ATTR_KEY_LLVM_ALIGNMENT@) {
            match self.attributes@[ATTR_KEY_LLVM_ALIGNMENT@] {
                AttrModel::Alignment(bytes) => Some(bytes as u64),
                _ => None,
            }
        } else {
            None
        }
    }

    /// The address space of the variable, the generic one by default.
    pub open spec fn address_space(self) -> u32 {
        if self.attributes@.contains_key(ATTR_KEY_LLVM_GLOBAL_ADDRESS_SPACE@) {
            match self.attributes@[ATTR_KEY_LLVM_GLOBAL_ADDRESS_SPACE@] {
                AttrModel::AddressSpace(space) => space,
                _ => GENERIC,
            }
        } else {
            GENERIC
        }
    }

    /// A variable of this name and type, in the generic address space.
    pub fn new(name: Identifier, ty: Type) -> (op: GlobalOp)
        ensures
            op.attributes@ == global_attributes(name@, ty@),
            op.regions@.len() == 0,
            op.symbol() == Some(name@),
            op.value_type() == Some(ty@),
            op.address_space() == GENERIC,
            op.alignment() is None,
    {
        let mut attributes = AttributeDict::new();
        attributes.set(ATTR_KEY_SYM_NAME, Attr::Identifier(name));
        attributes.set(ATTR_KEY_LLVM_GLOBAL_TYPE, Attr::Type(ty));
        let mut op = GlobalOp { attributes, regions: Vec::new() };
        proof {
            keys_differ();
        }
        op.set_address_space(GENERIC);
        op
    }

    /// A variable of this name and type in an address space.
    pub fn new_in_address_space(name: Identifier, ty: Type, address_space: u32) -> (op: GlobalOp)
        ensures
            op.attributes@ == global_attributes(name@, ty@).insert(
                ATTR_KEY_LLVM_GLOBAL_ADDRESS_SPACE@,
                AttrModel::AddressSpace(address_space),
            ),
            op.regions@.len() == 0,
            op.address_space() == address_space,
    {
        let mut op = Self::new(name, ty);
        op.set_address_space(address_space);
        op
    }

    /// A variable of this name and type with an alignment.
    pub fn new_with_alignment(name: Identifier, ty: Type, alignment: u64) -> (op: GlobalOp)
        ensures
            op.attributes@ == global_attributes(name@, ty@).insert(
                ATTR_KEY_LLVM_ALIGNMENT@,
                AttrModel::Alignment((alignment % 0x1_0000_0000) as u32),
            ),
            op.regions@.len() == 0,
            op.alignment() == Some((alignment % 0x1_0000_0000) as u64),
    {
        let mut op = Self::new(name, ty);
        op.set_alignment(alignment);
        op
    }

    /// The name of the variable.
    pub fn get_symbol_name(&self) -> (name: &Identifier)
        requires
            self.symbol() is Some,
        ensures
            self.symbol() == Some(name@),
    {
        symbol_name(&self.attributes)
    }

    /// The type of the variable.
    pub fn get_type(&self) -> (ty: &Type)
        requires
            self.value_type() is Some,
        ensures
            self.value_type() == Some(ty@),
    {
        match self.attributes.get(ATTR_KEY_LLVM_GLOBAL_TYPE) {
            Some(Attr::Type(ty)) => ty,
            _ => vstd::pervasive::unreached(),
        }
    }

    /// The alignment of the variable, if it is set.
    pub fn get_alignment(&self) -> (alignment: Option<u64>)
        ensures
            alignment == self.alignment(),
    {
        match self.attributes.get(ATTR_KEY_LLVM_ALIGNMENT) {
            Some(Attr::Alignment(bytes)) => Some(*bytes as u64),
            _ => None,
        }
    }

    /// Sets the alignment. It is kept in 32 bits; the bits above them are lost.
    pub fn set_alignment(&mut self, alignment: u64)
        ensures
            final(self).attributes@ == old(self).attributes@.insert(
                ATTR_KEY_LLVM_ALIGNMENT@,
                AttrModel::Alignment((alignment % 0x1_0000_0000) as u32),
            ),
            final(self).regions == old(self).regions,
            final(self).alignment() == Some((alignment % 0x1_0000_0000) as u64),
    {
        let kept: u32 = (alignment % 0x1_0000_0000) as u32;
        self.attributes.set(ATTR_KEY_LLVM_ALIGNMENT, Attr::Alignment(kept));
    }

    /// The address space of the variable.
    pub fn get_address_space(&self) -> (space: u32)
        ensures
            space == self.address_space(),
    {
        match self.attributes.get(ATTR_KEY_LLVM_GLOBAL_ADDRESS_SPACE) {
            Some(Attr::AddressSpace(space)) => *space,
            _ => GENERIC,
        }
    }

    /// Sets the address space.
    pub fn set_address_space(&mut self, address_space: u32)
        ensures
            final(self).attributes@ == old(self).attributes@.insert(
                ATTR_KEY_LLVM_GLOBAL_ADDRESS_SPACE@,
                AttrModel::AddressSpace(address_space),
            ),
            final(self).regions == old(self).regions,
            final(self).address_space() == address_space,
    {
        self.attributes.set(
            ATTR_KEY_LLVM_GLOBAL_ADDRESS_SPACE,
            Attr::AddressSpace(address_space),
        );
    }

    /// The initial value, if the variable has one.
    pub fn get_initializer_value(&self) -> (value: Option<&Attr>)
        ensures
            match value {
                Some(attr) => self.attributes@.contains_key(ATTR_KEY_GLOBAL_INITIALIZER@) && attr@
                    == self.attributes@[ATTR_KEY_GLOBAL_INITIALIZER@],
                None => !self.attributes@.contains_key(ATTR_KEY_GLOBAL_INITIALIZER@),
            },
    {
        self.attributes.get(ATTR_KEY_GLOBAL_INITIALIZER)
    }

    /// The block of the initializer region, if there is a region.
    pub fn get_initializer_block(&self) -> (block: Option<&Block>)
        requires
            self.regions@.len() > 0 ==> self.regions@[0].blocks@.len() > 0,
        ensures
            if self.regions@.len() > 0 {
                block == Some(&self.regions@[0].blocks@[0])
            } else {
                block is None
            },
    {
        if self.regions.len() > 0 {
            Some(&self.regions[0].blocks[0])
        } else {
            None
        }
    }

    /// The initializer region, if there is one.
    pub fn get_initializer_region(&self) -> (region: Option<&Region>)
        ensures
            if self.regions@.len() > 0 {
                region == Some(&self.regions@[0])
            } else {
                region is None
            },
    {
        if self.regions.len() > 0 {
            Some(&self.regions[0])
        } else {
            None
        }
    }

    /// Sets the initial value.
    pub fn set_initializer_value(&mut self, value: Attr)
        ensures
            final(self).attributes@ == old(self).attributes@.insert(
                ATTR_KEY_GLOBAL_INITIALIZER@,
                value@,
            ),
            final(self).regions == old(self).regions,
    {
        self.attributes.set(ATTR_KEY_GLOBAL_INITIALIZER, value);
    }

    /// Adds an initializer region with an entry block. The variable must have
    /// no initial value.
    pub fn add_initializer_region(&mut self)
        requires
            !old(self).attributes@.contains_key(ATTR_KEY_GLOBAL_INITIALIZER@),
        ensures
            final(self).attributes == old(self).attributes,
            final(self).regions@.len() == old(self).regions@.len() + 1,
            final(self).regions@.drop_last() == old(self).regions@,
            entry_only(final(self).regions@.last(), seq![]),
    {
        let args: Vec<Type> = Vec::new();
        proof {
            assert(models(args@) =~= seq![]);
        }
        self.regions.push(entry_region(args));
        proof {
            assert(self.regions@.drop_last() =~= old(self).regions@);
        }
    }

    /// Whether the variable has no initializer.
    pub fn is_declaration(&self) -> (declared: bool)
        ensures
            declared == (!self.attributes@.contains_key(ATTR_KEY_GLOBAL_INITIALIZER@)
                && self.regions@.len() == 0),
    {
        self.get_initializer_value().is_none() && self.get_initializer_region().is_none()
    }

    /// What [`GlobalOp::verify`] says.
    pub open spec fn judged(self) -> Result<(), GlobalOpVerifyErr> {
        if self.value_type() is None || (self.attributes@.contains_key(ATTR_KEY_GLOBAL_INITIALIZER@)
            && self.regions@.len() > 0) {
            Err(GlobalOpVerifyErr::MissingType)
        } else {
            Ok(())
        }
    }

    /// Checks that the variable has a type and at most one initializer.
    pub fn verify(&self) -> (verdict: Result<(), GlobalOpVerifyErr>)
        ensures
            verdict == self.judged(),
    {
        match self.attributes.get(ATTR_KEY_LLVM_GLOBAL_TYPE) {
            Some(Attr::Type(_)) => {},
            _ => {
                return Err(GlobalOpVerifyErr::MissingType);
            },
        }
        if self.get_initializer_value().is_some() && self.get_initializer_region().is_some() {
            return Err(GlobalOpVerifyErr::MissingType);
        }
        Ok(())
    }

    /// The keys of the attributes that the header of the variable and its
    /// initializer show.
    pub open spec fn header_keys() -> Seq<Seq<char>> {
        seq![ATTR_KEY_LLVM_GLOBAL_TYPE@, ATTR_KEY_SYM_NAME@, ATTR_KEY_GLOBAL_INITIALIZER@]
    }

    /// The attributes that are printed behind the header.
    pub fn separate_attributes(&self) -> (attributes: AttributeDict)
        ensures
            attributes@ == self.attributes.printed(Self::header_keys()),
    {
        let keys: [&str; 3] = [
            ATTR_KEY_LLVM_GLOBAL_TYPE,
            ATTR_KEY_SYM_NAME,
            ATTR_KEY_GLOBAL_INITIALIZER,
        ];
        proof {
            assert(Seq::new(keys@.len(), |i: int| keys@[i]@) =~= Self::header_keys());
        }
        self.attributes.without(keys.as_slice())
    }

    /// The text of the variable, given the texts of its type, of a line break
    /// with the indentation, of its [`GlobalOp::separate_attributes`], of its
    /// initial value and of its initializer region.
    pub fn print(
        &self,
        type_text: &str,
        line_break: &str,
        attributes_text: &str,
        value_text: &str,
        region_text: &str,
    ) -> (text: String)
        requires
            self.symbol() is Some,
            self.value_type() is Some,
        ensures
            text@ == "llvm.global @"@ + self.symbol()->Some_0 + " : "@ + type_text@ + line_break@
                + attributes_text@ + (if self.attributes@.contains_key(
                ATTR_KEY_GLOBAL_INITIALIZER@,
            ) {
                " = "@ + value_text@
            } else {
                seq![]
            }) + (if self.regions@.len() > 0 {
                " = "@ + region_text@
            } else {
                seq![]
            }),
    {
        let mut text = "llvm.global @".to_owned();
        text.append(self.get_symbol_name().as_str());
        text.append(" : ");
        text.append(type_text);
        text.append(line_break);
        text.append(attributes_text);
        let ghost before = text@;
        if self.get_initializer_value().is_some() {
            text.append(" = ");
            text.append(value_text);
            proof {
                assert(text@ =~= before + (" = "@ + value_text@));
            }
        } else {
            proof {
                assert(text@ =~= before + Seq::<char>::empty());
            }
        }
        let ghost between = text@;
        if self.get_initializer_region().is_some() {
            text.append(" = ");
            text.append(region_text);
            proof {
                assert(text@ =~= between + (" = "@ + region_text@));
            }
        } else {
            proof {
                assert(text@ =~= between + Seq::<char>::empty());
            }
        }
        text
    }

    /// Reads the header of a variable, `@name :`, for which `results` results
    /// were named. Says where the type is expected.
    pub fn parse(results: usize, text: &[char], at: usize) -> (read: Result<
        (GlobalHeader, usize),
        SymbolParseErr,
    >)
        requires
            at <= text.len(),
        ensures
            if results > 0 {
                read == Err::<(GlobalHeader, usize), _>(SymbolParseErr::GlobalResults)
            } else {
                match read_symbol(text@, at as int) {
                    Some((name, next)) => read matches Ok(found) && found.0.name@ == name && found.1
                        == next && found.1 <= text.len(),
                    None => read == Err::<(GlobalHeader, usize), _>(SymbolParseErr::Syntax),
                }
            },
    {
        if results > 0 {
            return Err(SymbolParseErr::GlobalResults);
        }
        match parse_symbol(text, at) {
            Some((name, next)) => Ok((GlobalHeader { name }, next)),
            None => Err(SymbolParseErr::Syntax),
        }
    }
}

/// A variable of which the name was read.
#[derive(Debug)]
pub struct GlobalHeader {
    pub name: Identifier,
}

/// A variable of which name and type were read.
#[derive(Debug)]
pub struct GlobalTyped {
    pub name: Identifier,
    pub ty: Type,
}

/// How reading goes on behind the attributes of a variable.
#[derive(Debug)]
pub enum GlobalNext {
    /// The variable has no initializer. It ends here.
    Done(GlobalOp, usize),
    /// An initializer is expected here.
    Initializer(GlobalOp, usize),
}

/// The attributes that the header and the attributes behind it give together:
/// where both say something, the attributes win.
pub open spec fn read_attributes(
    name: Seq<char>,
    ty: TypeModel,
    attributes: Map<Seq<char>, AttrModel>,
) -> Map<Seq<char>, AttrModel> {
    global_attributes(name, ty).union_prefer_right(attributes)
}

/// Where the initializer is expected behind the attributes, if an `=` announces
/// one.
pub open spec fn initializer_at(text: Seq<char>, at: int) -> Option<int> {
    match read_mark(text, after_blanks(text, at), '=') {
        Some(behind) => Some(after_blanks(text, behind)),
        None => None,
    }
}

impl GlobalHeader {
    /// Goes on behind the type, which ended at `end`. Says where the
    /// attributes are expected.
    pub fn with_type(self, text: &[char], ty: Type, end: usize) -> (read: (GlobalTyped, usize))
        requires
            end <= text.len(),
        ensures
            read.0.name == self.name,
            read.0.ty == ty,
            read.1 == after_blanks(text@, end as int),
            read.1 <= text.len(),
    {
        (GlobalTyped { name: self.name, ty }, skip_blanks(text, end))
    }
}

impl GlobalTyped {
    /// Puts the variable together behind the attributes, which ended at `end`,
    /// and looks for an initializer.
    pub fn with_attributes(self, text: &[char], attributes: AttributeDict, end: usize) -> (next:
        GlobalNext)
        requires
            end <= text.len(),
        ensures
            match initializer_at(text@, end as int) {
                None => next matches GlobalNext::Done(op, at) && op.attributes@ == read_attributes(
                    self.name@,
                    self.ty@,
                    attributes@,
                ) && op.regions@.len() == 0 && at == after_blanks(text@, end as int) && at
                    <= text.len(),
                Some(begin) => next matches GlobalNext::Initializer(op, at) && op.attributes@
                    == read_attributes(self.name@, self.ty@, attributes@) && op.regions@.len() == 0
                    && at == begin && at <= text.len(),
            },
    {
        let mut op = GlobalOp::new(self.name, self.ty);
        op.attributes.extend(attributes);
        let at: usize = skip_blanks(text, end);
        match parse_mark(text, at, '=') {
            None => GlobalNext::Done(op, at),
            Some(behind) => GlobalNext::Initializer(op, skip_blanks(text, behind)),
        }
    }
}

impl GlobalOp {
    /// Takes over the initializer that was read.
    pub fn with_initializer(self, initializer: Initializer) -> (op: GlobalOp)
        ensures
            op.attributes@ == match initializer {
                Initializer::Value(value) => self.attributes@.insert(
                    ATTR_KEY_GLOBAL_INITIALIZER@,
                    value@,
                ),
                Initializer::Region(_) => self.attributes@,
            },
            op.regions@ == match initializer {
                Initializer::Value(_) => self.regions@,
                Initializer::Region(region) => self.regions@.push(region),
            },
    {
        let mut op = self;
        match initializer {
            Initializer::Value(value) => {
                op.set_initializer_value(value);
            },
            Initializer::Region(region) => {
                op.regions.push(region);
            },
        }
        op
    }
}

/// What a table holds under a name.
#[derive(Debug)]
pub enum Symbol<'a> {
    /// A function.
    Func(&'a FuncOp),
    /// A global variable.
    Global(&'a GlobalOp),
    /// Any other symbol.
    Other,
}

/// What is wrong with an [`AddressOfOp`].
#[derive(Clone, Copy, Debug, PartialEq, Eq, Structural)]
pub enum AddressOfVerifyErr {
    ResultNotPointer,
    MissingGlobalName,
}

impl AddressOfVerifyErr {
    /// The text of the error.
    pub open spec fn text(self) -> Seq<char> {
        match self {
            AddressOfVerifyErr::ResultNotPointer => "AddressOfOp result must be a pointer"@,
            AddressOfVerifyErr::MissingGlobalName => {
                "AddressOfOp must have a global_name attribute"@
            },
        }
    }

    /// The text of the error.
    pub fn message(&self) -> (message: &'static str)
        ensures
            message@ == self.text(),
    {
        match self {
            AddressOfVerifyErr::ResultNotPointer => "AddressOfOp result must be a pointer",
            AddressOfVerifyErr::MissingGlobalName => {
                "AddressOfOp must have a global_name attribute"
            },
        }
    }
}

/// The address of a function or a global variable.
#[derive(Debug)]
pub struct AddressOfOp {
    pub global_name: Option<Identifier>,
    pub result: Type,
}

impl AddressOfOp {
    /// The address of `global_name` as a pointer into an address space.
    pub fn new(global_name: Identifier, address_space: u32) -> (op: AddressOfOp)
        ensures
            op.global_name matches Some(name) && name@ == global_name@,
            op.result@ == (TypeModel::Pointer { address_space }),
    {
        AddressOfOp { global_name: Some(global_name), result: Type::Pointer { address_space } }
    }

    /// The name that the address is of.
    pub fn get_global_name(&self) -> (name: &Identifier)
        requires
            self.global_name is Some,
        ensures
            *name == self.global_name->Some_0,
    {
        match &self.global_name {
            Some(name) => name,
            None => vstd::pervasive::unreached(),
        }
    }

    /// What [`AddressOfOp::verify`] says.
    pub open spec fn judged(self) -> Result<(), AddressOfVerifyErr> {
        if self.result@ !is Pointer {
            Err(AddressOfVerifyErr::ResultNotPointer)
        } else if self.global_name is None {
            Err(AddressOfVerifyErr::MissingGlobalName)
        } else {
            Ok(())
        }
    }

    /// Checks that the result is a pointer and that a name is given.
    pub fn verify(&self) -> (verdict: Result<(), AddressOfVerifyErr>)
        ensures
            verdict == self.judged(),
    {
        match &self.result {
            Type::Pointer { .. } => {},
            _ => {
                return Err(AddressOfVerifyErr::ResultNotPointer);
            },
        }
        if self.global_name.is_none() {
            return Err(AddressOfVerifyErr::MissingGlobalName);
        }
        Ok(())
    }

    /// The global variable that the name stands for, given what the nearest
    /// table holds under it.
    pub fn get_global<'a>(&self, found: Option<Symbol<'a>>) -> (global: Option<&'a GlobalOp>)
        requires
            self.global_name is Some,
        ensures
            global == match found {
                Some(Symbol::Global(op)) => Some(op),
                _ => None,
            },
    {
        match found {
            Some(Symbol::Global(op)) => Some(op),
            _ => None,
        }
    }

    /// The function that the name stands for, given what the nearest table
    /// holds under it.
    pub fn get_function<'a>(&self, found: Option<Symbol<'a>>) -> (function: Option<&'a FuncOp>)
        requires
            self.global_name is Some,
        ensures
            function == match found {
                Some(Symbol::Func(op)) => Some(op),
                _ => None,
            },
    {
        match found {
            Some(Symbol::Func(op)) => Some(op),
            _ => None,
        }
    }

    /// The names that the operation uses.
    pub fn used_symbols(&self) -> (names: Vec<Identifier>)
        requires
            self.global_name is Some,
        ensures
            names@.len() == 1,
            names@[0]@ == self.global_name->Some_0@,
    {
        let mut names: Vec<Identifier> = Vec::new();
        names.push(self.get_global_name().duplicate());
        names
    }

    /// Checks that the name stands for a function or a global variable, given
    /// what the nearest table holds under it.
    pub fn verify_symbol_uses(&self, found: Option<Symbol<'_>>) -> (verdict: Result<
        (),
        SymbolUserOpVerifyErr,
    >)
        requires
            self.global_name is Some,
        ensures
            match found {
                None => verdict matches Err(SymbolUserOpVerifyErr::SymbolNotFound(name)) && name@
                    == self.global_name->Some_0@,
                Some(Symbol::Other) => verdict == Err::<(), _>(
                    SymbolUserOpVerifyErr::AddressOfInvalidReference,
                ),
                Some(_) => verdict is Ok,
            },
    {
        match found {
            None => Err(
                SymbolUserOpVerifyErr::SymbolNotFound(
                    self.get_global_name().as_str().to_owned(),
                ),
            ),
            Some(Symbol::Other) => Err(SymbolUserOpVerifyErr::AddressOfInvalidReference),
            Some(_) => Ok(()),
        }
    }
}

/// The header that is printed of a symbol is read back as its name, and the
/// type is found behind it. `gap` is what stands between the name and the
/// colon: nothing in a function, a space in a global variable.
#[verifier::rlimit(50)]
pub proof fn symbol_headers_read_back(name: Seq<char>, gap: Seq<char>, rest: Seq<char>)
    requires
        valid_identifier(name),
        gap == Seq::<char>::empty() || gap == seq![' '],
        rest.len() > 0 ==> !whitespace(rest[0]),
    ensures
        ({
            let text = seq!['@'] + name + gap + seq![':', ' '] + rest;
            read_symbol(text, 0) matches Some((read, next)) && read == name && 0 <= next
                <= text.len() && text.skip(next) == rest
        }),
{
    let text = seq!['@'] + name + gap + seq![':', ' '] + rest;
    let end = 1 + name.len() as int;
    assert(text[0] == '@');
    assert(text.subrange(1, end) =~= name);
    assert(!crate::llvm::identifier::identifier_part(text[end])) by {
        if gap.len() == 0 {
            assert(text[end] == ':');
        } else {
            assert(text[end] == ' ');
        }
    }
    lemma_read_identifier(text, 1, name);
    let colon = end + gap.len() as int;
    assert(text[colon] == ':');
    assert(text[colon + 1] == ' ');
    if gap.len() > 0 {
        assert(text[end] == ' ');
        assert(after_blanks(text, end) == after_blanks(text, colon));
    }
    assert(after_blanks(text, colon) == colon);
    let next = colon + 2;
    assert(after_blanks(text, colon + 1) == after_blanks(text, next));
    if rest.len() > 0 {
        assert(text[next] == rest[0]);
    }
    assert(after_blanks(text, next) == next);
    assert(text.skip(next) =~= rest);
}

/// A function that is put together from the parts that it prints has the
/// attributes that it had, if none of them is outlined.
pub proof fn functions_survive_printing(op: FuncOp, read: FuncOp)
    requires
        op.symbol() is Some,
        op.signature() is Some,
        forall|key: Seq<char>| #[trigger]
            op.attributes@.contains_key(key) ==> !op.attributes@[key].outlined(),
        read.attributes@ == op.attributes.printed(FuncOp::header_keys()).insert(
            ATTR_KEY_SYM_NAME@,
            AttrModel::Identifier(op.symbol()->Some_0),
        ).insert(ATTR_KEY_LLVM_FUNC_TYPE@, AttrModel::Type(op.signature()->Some_0)),
    ensures
        read.attributes@ == op.attributes@,
{
    keys_differ();
    let keys = FuncOp::header_keys();
    assert(keys[0] == ATTR_KEY_LLVM_FUNC_TYPE@ && keys[1] == ATTR_KEY_SYM_NAME@);
    assert(read.attributes@ =~= op.attributes@);
}

/// A global variable that is put together from the parts that it prints has
/// the attributes that it had, if none of them is outlined and it names its
/// address space.
pub proof fn globals_survive_printing(op: GlobalOp, read: GlobalOp)
    requires
        op.symbol() is Some,
        op.value_type() is Some,
        op.attributes@.contains_key(ATTR_KEY_LLVM_GLOBAL_ADDRESS_SPACE@),
        forall|key: Seq<char>| #[trigger]
            op.attributes@.contains_key(key) ==> !op.attributes@[key].outlined(),
        read.attributes@ == ({
            let header = read_attributes(
                op.symbol()->Some_0,
                op.value_type()->Some_0,
                op.attributes.printed(GlobalOp::header_keys()),
            );
            if op.attributes@.contains_key(ATTR_KEY_GLOBAL_INITIALIZER@) {
                header.insert(
                    ATTR_KEY_GLOBAL_INITIALIZER@,
                    op.attributes@[ATTR_KEY_GLOBAL_INITIALIZER@],
                )
            } else {
                header
            }
        }),
    ensures
        read.attributes@ == op.attributes@,
{
    keys_differ();
    let keys = GlobalOp::header_keys();
    assert(keys[0] == ATTR_KEY_LLVM_GLOBAL_TYPE@ && keys[1] == ATTR_KEY_SYM_NAME@ && keys[2]
        == ATTR_KEY_GLOBAL_INITIALIZER@);
    assert(read.attributes@ =~= op.attributes@);
}

/// The names of the symbol operations.
pub open spec fn op_names() -> Set<Seq<char>> {
    set!["llvm.func"@, "llvm.global"@, "llvm.addressof"@]
}

/// Registers the symbol operations.
pub fn register(dialect: &mut Dialect)
    ensures
        final(dialect)@ == old(dialect)@.union(op_names()),
{
    dialect.add_op("llvm.func");
    dialect.add_op("llvm.global");
    dialect.add_op("llvm.addressof");
    proof {
        assert(dialect@ =~= old(dialect)@.union(op_names()));
    }
}

} // verus!
