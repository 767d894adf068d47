//! The declaration normalizer and the document it builds.
use vstd::prelude::*;
use vstd::string::*;
use crate::canonical::{
    fields_view, functions_view, items_view, parameters_view, DeclModel, Field, FileAst, Function,
    FunctionModel, ItemDecl, Parameter, TypedName, SCHEMA_VERSION,
};
use crate::native::{
    NativeField, NativeFields, NativeFile, NativeFn, NativeFnArg, NativeImpl, NativeImplItem,
    NativeItem, NativePat, NativeReturnType, NativeStruct,
};
use crate::stmt::{block_model, convert_block};

verus! {

pub open spec fn field_model(f: NativeField) -> TypedName {
    TypedName { name: f.name@, ty: f.ty@ }
}

/// The fields of a struct: the named ones in order, none for the other forms.
pub open spec fn fields_model(f: NativeFields) -> Seq<TypedName> {
    match f {
        NativeFields::Named { fields } => fields@.map_values(|x: NativeField| field_model(x)),
        _ => Seq::empty(),
    }
}

/// The parameter an argument stands for: a typed identifier only, never a
/// receiver.
pub open spec fn param_model(a: NativeFnArg) -> Option<TypedName> {
    match a {
        NativeFnArg::Typed { pat: NativePat::Ident { name }, ty } => Some(TypedName { name: name@, ty: ty@ }),
        _ => None,
    }
}

/// The parameter list of a function, in order, receivers and non-identifier
/// patterns left out.
pub open spec fn params_model(s: Seq<NativeFnArg>) -> Seq<TypedName>
    decreases s.len(),
{
    if s.len() == 0 {
        Seq::empty()
    } else {
        let prev = params_model(s.drop_last());
        match param_model(s.last()) {
            Some(p) => prev.push(p),
            None => prev,
        }
    }
}

/// A return annotation's text, `()` when there is none.
pub open spec fn return_type_model(o: NativeReturnType) -> Seq<char> {
    match o {
        NativeReturnType::Default => "()"@,
        NativeReturnType::Type { ty } => ty@,
    }
}

pub open spec fn function_model(f: NativeFn) -> FunctionModel {
    FunctionModel {
        name: f.ident@,
        params: params_model(f.inputs@),
        return_type: return_type_model(f.output),
        body: block_model(f.block@),
    }
}

/// The methods of an implementation block, in order.
pub open spec fn methods_model(s: Seq<NativeImplItem>) -> Seq<FunctionModel>
    decreases s.len(),
{
    if s.len() == 0 {
        Seq::empty()
    } else {
        let prev = methods_model(s.drop_last());
        match s.last() {
            NativeImplItem::Fn { method } => prev.push(function_model(method)),
            NativeImplItem::Other => prev,
        }
    }
}

/// An implementation block, or nothing when no method survives.
pub open spec fn impl_model(i: NativeImpl) -> Option<DeclModel> {
    let methods = methods_model(i.items@);
    if methods.len() == 0 {
        None
    } else {
        Some(DeclModel::Impl { target: i.self_ty@, methods })
    }
}

pub open spec fn struct_model(s: NativeStruct) -> DeclModel {
    DeclModel::Struct { name: s.ident@, fields: fields_model(s.fields) }
}

/// What a top-level item normalizes to: `None` for kinds outside the schema
/// and for implementation blocks without methods.
pub open spec fn item_model(i: NativeItem) -> Option<DeclModel> {
    match i {
        NativeItem::Struct(s) => Some(struct_model(s)),
        NativeItem::Impl(b) => impl_model(b),
        NativeItem::Fn(f) => Some(DeclModel::Function(function_model(f))),
        NativeItem::Other => None,
    }
}

/// The declarations of a file, in source order.
pub open spec fn file_model(s: Seq<NativeItem>) -> Seq<DeclModel>
    decreases s.len(),
{
    if s.len() == 0 {
        Seq::empty()
    } else {
        let prev = file_model(s.drop_last());
        match item_model(s.last()) {
            Some(d) => prev.push(d),
            None => prev,
        }
    }
}

pub open spec fn option_item_view(d: Option<ItemDecl>) -> Option<DeclModel> {
    match d {
        Some(x) => Some(x.view()),
        None => None,
    }
}

/// Normalizes a whole file into a document of the current schema version.
pub fn convert_file(file: &NativeFile) -> (r: FileAst)
    ensures
        r.version == SCHEMA_VERSION,
        r.view() == file_model(file.items@),
{
    let mut items: Vec<ItemDecl> = Vec::new();
    let mut i: usize = 0;
    while i < file.items.len()
        invariant
            i <= file.items.len(),
            items_view(items@) == file_model(file.items@.subrange(0, i as int)),
        decreases file.items.len() - i,
    {
        let ghost prev = items@;
        let converted = match &file.items[i] {
            NativeItem::Struct(s) => Some(convert_struct(s)),
            NativeItem::Impl(b) => convert_impl(b),
            NativeItem::Fn(f) => Some(ItemDecl::Function(convert_function(f))),
            NativeItem::Other => None,
        };
        match converted {
            Some(d) => {
                items.push(d);
                proof {
                    assert(items_view(items@) =~= items_view(prev).push(d.view()));
                }
            },
            None => {},
        }
        i += 1;
        proof {
            assert(file.items@.subrange(0, i as int).drop_last() =~= file.items@.subrange(0, i - 1));
        }
    }
    proof {
        assert(file.items@.subrange(0, i as int) =~= file.items@);
    }
    FileAst { version: SCHEMA_VERSION, items }
}

/// Normalizes a struct: its named fields in order, an empty list for tuple
/// and unit structs.
pub fn convert_struct(item: &NativeStruct) -> (r: ItemDecl)
    ensures
        r.view() == struct_model(*item),
{
    let mut fields: Vec<Field> = Vec::new();
    match &item.fields {
        NativeFields::Named { fields: named } => {
            let mut i: usize = 0;
            while i < named.len()
                invariant
                    item.fields == (NativeFields::Named { fields: *named }),
                    i <= named.len(),
                    fields_view(fields@) =~= named@.subrange(0, i as int).map_values(
                        |x: NativeField| field_model(x),
                    ),
                decreases named.len() - i,
            {
                let ghost prev = fields@;
                let field = Field { name: named[i].name.clone(), field_type: named[i].ty.clone() };
                fields.push(field);
                i += 1;
                proof {
                    assert(fields_view(fields@) =~= fields_view(prev).push(field.view()));
                    assert(named@.subrange(0, i as int).map_values(|x: NativeField| field_model(x))
                        =~= named@.subrange(0, i - 1).map_values(|x: NativeField| field_model(x)).push(
                        field_model(named@[i - 1])));
                }
            }
            proof {
                assert(named@.subrange(0, i as int) =~= named@);
            }
        },
        _ => {},
    }
    proof {
        assert(fields_view(fields@) =~= fields_model(item.fields));
    }
    ItemDecl::Struct { name: item.ident.clone(), fields }
}

/// Normalizes an implementation block; `None` when it has no methods.
pub fn convert_impl(item: &NativeImpl) -> (r: Option<ItemDecl>)
    ensures
        option_item_view(r) == impl_model(*item),
{
    let target = item.self_ty.clone();
    let mut methods: Vec<Function> = Vec::new();
    let mut i: usize = 0;
    while i < item.items.len()
        invariant
            i <= item.items.len(),
            functions_view(methods@) == methods_model(item.items@.subrange(0, i as int)),
        decreases item.items.len() - i,
    {
        let ghost prev = methods@;
        match &item.items[i] {
            NativeImplItem::Fn { method } => {
                let f = convert_function(method);
                methods.push(f);
                proof {
                    assert(functions_view(methods@) =~= functions_view(prev).push(f.view()));
                }
            },
            NativeImplItem::Other => {},
        }
        i += 1;
        proof {
            assert(item.items@.subrange(0, i as int).drop_last() =~= item.items@.subrange(0, i - 1));
        }
    }
    proof {
        assert(item.items@.subrange(0, i as int) =~= item.items@);
    }
    if methods.len() == 0 {
        None
    } else {
        Some(ItemDecl::Impl { target, methods })
    }
}

/// Normalizes a free function or a method.
pub fn convert_function(item: &NativeFn) -> (r: Function)
    ensures
        r.view() == function_model(*item),
{
    let name = item.ident.clone();
    let params = convert_params(&item.inputs);
    let return_type = convert_return_type(&item.output);
    let body = convert_block(&item.block);
    Function { name, params, return_type, body }
}

/// Normalizes a parameter list: receivers are excluded unconditionally, and
/// so are parameters bound by a pattern other than a plain identifier.
pub fn convert_params(inputs: &Vec<NativeFnArg>) -> (r: Vec<Parameter>)
    ensures
        parameters_view(r@) == params_model(inputs@),
{
    let mut params: Vec<Parameter> = Vec::new();
    let mut i: usize = 0;
    while i < inputs.len()
        invariant
            i <= inputs.len(),
            parameters_view(params@) == params_model(inputs@.subrange(0, i as int)),
        decreases inputs.len() - i,
    {
        let ghost prev = params@;
        match &inputs[i] {
            NativeFnArg::Typed { pat: NativePat::Ident { name }, ty } => {
                let p = Parameter { name: name.clone(), param_type: ty.clone() };
                params.push(p);
                proof {
                    assert(parameters_view(params@) =~= parameters_view(prev).push(p.view()));
                }
            },
            _ => {},
        }
        i += 1;
        proof {
            assert(inputs@.subrange(0, i as int).drop_last() =~= inputs@.subrange(0, i - 1));
        }
    }
    proof {
        assert(inputs@.subrange(0, i as int) =~= inputs@);
    }
    params
}

/// The text of a return annotation, `()` when it is absent.
pub fn convert_return_type(output: &NativeReturnType) -> (r: String)
    ensures
        r@ == return_type_model(*output),
{
    match output {
        NativeReturnType::Default => String::from_str("()"),
        NativeReturnType::Type { ty } => ty.clone(),
    }
}

} // verus!
