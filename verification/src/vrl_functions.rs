//! The `get_metadata_field` remap function: reads a secret or a metadata
//! field from the resolution context's target.
//!
//! The expression language around it compiles a call of the function down to
//! an expression object; resolving that expression looks the key up in the
//! target and yields its value, or null when the target has none.

use vstd::prelude::*;

use crate::event::{bytes_eq, Value, ValueV};

verus! {

/// Which metadata a call addresses: a legacy secret key, or a metadata
/// query path.
#[derive(Debug)]
pub enum MetadataKey {
    Legacy(Vec<u8>),
    Query(Vec<u8>),
}

/// Model of a metadata key.
pub enum MetadataKeyV {
    Legacy(Seq<u8>),
    Query(Seq<u8>),
}

impl View for MetadataKey {
    type V = MetadataKeyV;

    open spec fn view(&self) -> MetadataKeyV {
        match self {
            MetadataKey::Legacy(k) => MetadataKeyV::Legacy(k@),
            MetadataKey::Query(q) => MetadataKeyV::Query(q@),
        }
    }
}

fn clone_key(k: &MetadataKey) -> (r: MetadataKey)
    ensures
        r@ == k@,
{
    match k {
        MetadataKey::Legacy(b) => MetadataKey::Legacy(crate::event::clone_bytes(b)),
        MetadataKey::Query(b) => MetadataKey::Query(crate::event::clone_bytes(b)),
    }
}

/// The first value bound to `key` in an association list, if any.
pub open spec fn spec_assoc_secret(s: Seq<(Seq<u8>, Seq<u8>)>, key: Seq<u8>) -> Option<Seq<u8>>
    decreases s.len(),
{
    if s.len() == 0 {
        None
    } else if s[0].0 == key {
        Some(s[0].1)
    } else {
        spec_assoc_secret(s.drop_first(), key)
    }
}

/// The first value bound to `path` in the metadata, if any.
pub open spec fn spec_assoc_metadata(s: Seq<(Seq<u8>, ValueV)>, path: Seq<u8>) -> Option<ValueV>
    decreases s.len(),
{
    if s.len() == 0 {
        None
    } else if s[0].0 == path {
        Some(s[0].1)
    } else {
        spec_assoc_metadata(s.drop_first(), path)
    }
}

/// The models of a secret list.
pub open spec fn secrets_view(s: Seq<(Vec<u8>, Vec<u8>)>) -> Seq<(Seq<u8>, Seq<u8>)> {
    s.map_values(|p: (Vec<u8>, Vec<u8>)| (p.0@, p.1@))
}

/// The models of a metadata list.
pub open spec fn metadata_view(s: Seq<(Vec<u8>, Value)>) -> Seq<(Seq<u8>, ValueV)> {
    s.map_values(|p: (Vec<u8>, Value)| (p.0@, p.1@))
}

/// The resolution target a remap expression runs against: its secrets and
/// its event metadata.
#[derive(Debug)]
pub struct Context {
    pub secrets: Vec<(Vec<u8>, Vec<u8>)>,
    pub metadata: Vec<(Vec<u8>, Value)>,
}

impl Context {
    /// The secret bound to `key`, if any.
    pub fn get_secret(&self, key: &Vec<u8>) -> (r: Option<Vec<u8>>)
        ensures
            match spec_assoc_secret(secrets_view(self.secrets@), key@) {
                Some(v) => r matches Some(b) && b@ == v,
                None => r is None,
            },
    {
        proof {
            assert(secrets_view(self.secrets@).skip(0) =~= secrets_view(self.secrets@));
        }
        let mut i: usize = 0;
        while i < self.secrets.len()
            invariant
                0 <= i <= self.secrets@.len(),
                spec_assoc_secret(secrets_view(self.secrets@), key@) == spec_assoc_secret(
                    secrets_view(self.secrets@).skip(i as int),
                    key@,
                ),
            decreases self.secrets@.len() - i,
        {
            let ghost tail = secrets_view(self.secrets@).skip(i as int);
            assert(tail[0] == (self.secrets@[i as int].0@, self.secrets@[i as int].1@));
            if bytes_eq(&self.secrets[i].0, key) {
                return Some(crate::event::clone_bytes(&self.secrets[i].1));
            }
            assert(tail.drop_first() =~= secrets_view(self.secrets@).skip(i + 1));
            i = i + 1;
        }
        assert(secrets_view(self.secrets@).skip(self.secrets@.len() as int).len() == 0);
        None
    }

    /// The metadata value at `path`, if any.
    pub fn get_metadata(&self, path: &Vec<u8>) -> (r: Option<Value>)
        ensures
            match spec_assoc_metadata(metadata_view(self.metadata@), path@) {
                Some(v) => r matches Some(b) && b@ == v,
                None => r is None,
            },
    {
        proof {
            assert(metadata_view(self.metadata@).skip(0) =~= metadata_view(self.metadata@));
        }
        let mut i: usize = 0;
        while i < self.metadata.len()
            invariant
                0 <= i <= self.metadata@.len(),
                spec_assoc_metadata(metadata_view(self.metadata@), path@) == spec_assoc_metadata(
                    metadata_view(self.metadata@).skip(i as int),
                    path@,
                ),
            decreases self.metadata@.len() - i,
        {
            let ghost tail = metadata_view(self.metadata@).skip(i as int);
            assert(tail[0] == (self.metadata@[i as int].0@, self.metadata@[i as int].1@));
            if bytes_eq(&self.metadata[i].0, path) {
                return Some(crate::event::clone_value(&self.metadata[i].1));
            }
            assert(tail.drop_first() =~= metadata_view(self.metadata@).skip(i + 1));
            i = i + 1;
        }
        assert(metadata_view(self.metadata@).skip(self.metadata@.len() as int).len() == 0);
        None
    }
}

/// What resolving `get_metadata_field` yields for a key against a target:
/// the secret as bytes, or the metadata value, or null when absent.
pub open spec fn spec_get_metadata_field(ctx: Context, key: MetadataKeyV) -> ValueV {
    match key {
        MetadataKeyV::Legacy(k) => match spec_assoc_secret(secrets_view(ctx.secrets@), k) {
            Some(v) => ValueV::Bytes(v),
            None => ValueV::Null,
        },
        MetadataKeyV::Query(q) => match spec_assoc_metadata(metadata_view(ctx.metadata@), q) {
            Some(v) => v,
            None => ValueV::Null,
        },
    }
}

/// A failed expression resolution, with its message.
#[derive(Debug)]
pub struct ExpressionError {
    pub message: String,
}

/// Resolve the function against a target: a legacy key reads the secret of
/// that name (null when absent), a query reads the metadata value at the
/// path (null when absent). Resolution never fails.
pub fn get_metadata_field(ctx: &Context, key: &MetadataKey) -> (r: Result<Value, ExpressionError>)
    ensures
        r matches Ok(v) && v@ == spec_get_metadata_field(*ctx, key@),
{
    Ok(
        match key {
            MetadataKey::Legacy(k) => match ctx.get_secret(k) {
                Some(v) => Value::Bytes(v),
                None => Value::Null,
            },
            MetadataKey::Query(q) => match ctx.get_metadata(q) {
                Some(v) => v,
                None => Value::Null,
            },
        },
    )
}

/// Which kinds of values an argument accepts.
#[derive(Clone, Copy, Debug, PartialEq, Eq, Structural)]
pub enum ArgumentKind {
    /// Any value kind is accepted.
    Any,
    /// Only byte strings.
    Bytes,
}

/// One declared parameter of a remap function.
#[derive(Clone, Copy, Debug, PartialEq, Eq)]
pub struct Parameter {
    pub keyword: &'static str,
    pub kind: ArgumentKind,
    pub required: bool,
}

/// One documentation example of a remap function.
#[derive(Clone, Copy, Debug, PartialEq, Eq)]
pub struct Example {
    pub title: &'static str,
    pub source: &'static str,
    pub result: &'static str,
}

/// The arguments handed to a function at compile time: here, the one `key`
/// argument, already classified.
#[derive(Debug)]
pub struct ArgumentList {
    pub key: Option<MetadataKey>,
}

/// Why a function call could not be compiled.
#[derive(Clone, Copy, Debug, PartialEq, Eq, Structural)]
pub enum CompileError {
    MissingKeyArgument,
}

/// Take the metadata key argument from an argument list.
pub fn get_metadata_key(arguments: &mut ArgumentList) -> (r: Result<MetadataKey, CompileError>)
    ensures
        old(arguments).key matches Some(k) ==> (r matches Ok(out) && out@ == k@),
        old(arguments).key is None ==> r == Err::<MetadataKey, CompileError>(
            CompileError::MissingKeyArgument,
        ),
{
    match &arguments.key {
        Some(k) => Ok(clone_key(k)),
        None => Err(CompileError::MissingKeyArgument),
    }
}

/// The inferred type of an expression: which kinds it may yield and whether
/// resolving it can fail.
#[derive(Clone, Copy, Debug, PartialEq, Eq, Structural)]
pub struct TypeDef {
    pub bytes: bool,
    pub any: bool,
    pub nullable: bool,
    pub fallible: bool,
}

impl TypeDef {
    /// An expression yielding byte strings.
    pub fn bytes() -> (r: TypeDef)
        ensures
            r == (TypeDef { bytes: true, any: false, nullable: false, fallible: true }),
    {
        TypeDef { bytes: true, any: false, nullable: false, fallible: true }
    }

    /// An expression that may yield any kind.
    pub fn any() -> (r: TypeDef)
        ensures
            r == (TypeDef { bytes: false, any: true, nullable: false, fallible: true }),
    {
        TypeDef { bytes: false, any: true, nullable: false, fallible: true }
    }

    /// The same type, possibly null.
    pub fn add_null(self) -> (r: TypeDef)
        ensures
            r == (TypeDef { nullable: true, ..self }),
    {
        TypeDef { nullable: true, ..self }
    }

    /// The same type, resolved without failure.
    pub fn infallible(self) -> (r: TypeDef)
        ensures
            r == (TypeDef { fallible: false, ..self }),
    {
        TypeDef { fallible: false, ..self }
    }
}

/// The `get_metadata_field` remap function.
#[derive(Clone, Copy, Debug)]
pub struct GetMetadataField;

impl GetMetadataField {
    /// The name the function is called by.
    pub fn identifier(&self) -> (r: &'static str)
        ensures
            r@ == "get_metadata_field"@,
    {
        "get_metadata_field"
    }

    /// The one declared parameter: a required `key` of any kind.
    pub fn parameters(&self) -> (r: Vec<Parameter>)
        ensures
            r@ == seq![Parameter { keyword: "key", kind: ArgumentKind::Any, required: true }],
    {
        let mut v: Vec<Parameter> = Vec::new();
        v.push(Parameter { keyword: "key", kind: ArgumentKind::Any, required: true });
        assert(v@ =~= seq![
            Parameter { keyword: "key", kind: ArgumentKind::Any, required: true },
        ]);
        v
    }

    /// The documentation examples.
    pub fn examples(&self) -> (r: Vec<Example>)
        ensures
            r@.len() == 1,
            r@[0].title@ == "Get the datadog api key"@,
            r@[0].result@ == "null"@,
    {
        let mut v: Vec<Example> = Vec::new();
        v.push(
            Example {
                title: "Get the datadog api key",
                source: "get_metadata_field(.datadog_api_key)",
                result: "null",
            },
        );
        v
    }

    /// Compile a call: take the key argument and close over it.
    pub fn compile(&self, mut arguments: ArgumentList) -> (r: Result<
        GetMetadataFieldFn,
        CompileError,
    >)
        ensures
            arguments.key matches Some(k) ==> (r matches Ok(f) && f.key@ == k@),
            arguments.key is None ==> r == Err::<GetMetadataFieldFn, CompileError>(
                CompileError::MissingKeyArgument,
            ),
    {
        let key = match get_metadata_key(&mut arguments) {
            Ok(k) => k,
            Err(e) => {
                return Err(e);
            },
        };
        Ok(GetMetadataFieldFn { key })
    }
}

/// The compiled expression: a `get_metadata_field` call closed over its key.
#[derive(Debug)]
pub struct GetMetadataFieldFn {
    pub key: MetadataKey,
}

impl GetMetadataFieldFn {
    /// Resolve against a target.
    pub fn resolve(&self, ctx: &Context) -> (r: Result<Value, ExpressionError>)
        ensures
            r matches Ok(v) && v@ == spec_get_metadata_field(*ctx, self.key@),
    {
        get_metadata_field(ctx, &self.key)
    }

    /// The type of the expression: a legacy secret read yields bytes or
    /// null; a metadata query may yield anything. Neither can fail.
    pub fn type_def(&self) -> (r: TypeDef)
        ensures
            self.key@ is Legacy ==> r == (TypeDef {
                bytes: true,
                any: false,
                nullable: true,
                fallible: false,
            }),
            self.key@ is Query ==> r == (TypeDef {
                bytes: false,
                any: true,
                nullable: false,
                fallible: false,
            }),
    {
        match &self.key {
            MetadataKey::Legacy(_) => TypeDef::bytes().add_null().infallible(),
            MetadataKey::Query(_) => TypeDef::any().infallible(),
        }
    }
}

} // verus!
