use vstd::prelude::*;

verus! {

/// Error codes reported to the caller of a query. `Success` means no error.
#[derive(Clone, Copy, Debug, PartialEq, Eq, Structural)]
pub enum QueryErrorCode {
    Success,
    Generic,
    Syntax,
    ParseArgs,
    AddArgs,
    Expr,
    Keyword,
    NoResults,
    BadAttr,
    Inval,
    BuildPlan,
    ConstructPipeline,
    NoReducer,
    ReducerGeneric,
    AggPlan,
    CursorAlloc,
    ReducerInit,
    QString,
    NoPropKey,
    NoPropVal,
    NoDoc,
    NoOption,
    RedisKeyType,
    InvalPath,
    IndexExists,
    BadOption,
    BadOrderOption,
    Limit,
    NoIndex,
    DocExists,
    DocNotAdded,
    DupField,
    GeoFormat,
    NoDistribute,
    UnsuppType,
    NotNumeric,
    TimedOut,
    NoParam,
    DupParam,
    BadVal,
    NonHybrid,
    HybridNonExist,
    AdhocWithBatchSize,
    AdhocWithEfRuntime,
    NonRange,
    Missing,
    Mismatch,
    UnknownIndex,
    DroppedBackground,
    AliasConflict,
    IndexBgOOMFail,
    WeightNotAllowed,
    VectorNotAllowed,
    OutOfMemory,
}

/// The human-readable text of each error code.
pub open spec fn code_text(code: QueryErrorCode) -> Seq<char> {
    match code {
        QueryErrorCode::Success => "Success (not an error)"@,
        QueryErrorCode::Generic => "SEARCH_GENERIC: Generic error evaluating the query"@,
        QueryErrorCode::Syntax => "SEARCH_SYNTAX: Parsing/Syntax error for query string"@,
        QueryErrorCode::ParseArgs => "SEARCH_PARSE_ARGS: Error parsing query/aggregation arguments"@,
        QueryErrorCode::AddArgs => "SEARCH_ADD_ARGS: Error parsing document indexing arguments"@,
        QueryErrorCode::Expr => "SEARCH_EXPR: Parsing/Evaluating dynamic expression failed"@,
        QueryErrorCode::Keyword => "SEARCH_KEYWORD: Could not handle query keyword"@,
        QueryErrorCode::NoResults => "SEARCH_NO_RESULTS: Query matches no results"@,
        QueryErrorCode::BadAttr => "SEARCH_BAD_ATTR: Attribute not supported for term"@,
        QueryErrorCode::Inval => "SEARCH_INVAL: Could not validate the query nodes (bad attribute?)"@,
        QueryErrorCode::BuildPlan => "SEARCH_BUILD_PLAN: Could not build plan from query"@,
        QueryErrorCode::ConstructPipeline => "SEARCH_CONSTRUCT_PIPELINE: Could not construct query pipeline"@,
        QueryErrorCode::NoReducer => "SEARCH_NO_REDUCER: Reducer not found"@,
        QueryErrorCode::ReducerGeneric => "SEARCH_REDUCER_GENERIC: Generic reducer error"@,
        QueryErrorCode::AggPlan => "SEARCH_AGG_PLAN: Could not plan aggregation request"@,
        QueryErrorCode::CursorAlloc => "SEARCH_CURSOR_ALLOC: Could not allocate a cursor"@,
        QueryErrorCode::ReducerInit => "SEARCH_REDUCER_INIT: Could not initialize reducer"@,
        QueryErrorCode::QString => "SEARCH_QSTRING: Bad query string"@,
        QueryErrorCode::NoPropKey => "SEARCH_NO_PROP_KEY: Property not found in schema"@,
        QueryErrorCode::NoPropVal => "SEARCH_NO_PROP_VAL: Value not found in result (not a hard error)"@,
        QueryErrorCode::NoDoc => "SEARCH_NO_DOC: Document not found"@,
        QueryErrorCode::NoOption => "SEARCH_NO_OPTION: Invalid option"@,
        QueryErrorCode::RedisKeyType => "SEARCH_REDIS_KEY_TYPE: Invalid Redis key"@,
        QueryErrorCode::InvalPath => "SEARCH_INVAL_PATH: Invalid path"@,
        QueryErrorCode::IndexExists => "SEARCH_INDEX_EXISTS: Index already exists"@,
        QueryErrorCode::BadOption => "SEARCH_BAD_OPTION: Option not supported for current mode"@,
        QueryErrorCode::BadOrderOption => "SEARCH_BAD_ORDER_OPTION: Path with undefined ordering does not support slop/inorder"@,
        QueryErrorCode::Limit => "SEARCH_LIMIT: Limit exceeded"@,
        QueryErrorCode::NoIndex => "SEARCH_INDEX_NOT_FOUND: Index not found"@,
        QueryErrorCode::DocExists => "SEARCH_DOC_EXISTS: Document already exists"@,
        QueryErrorCode::DocNotAdded => "SEARCH_DOC_NOT_ADDED: Document was not added because condition was unmet"@,
        QueryErrorCode::DupField => "SEARCH_DUP_FIELD: Field was specified twice"@,
        QueryErrorCode::GeoFormat => r#"SEARCH_GEO_FORMAT: Invalid lon/lat format. Use "lon lat" or "lon,lat""#@,
        QueryErrorCode::NoDistribute => "SEARCH_NO_DISTRIBUTE: Could not distribute the operation"@,
        QueryErrorCode::UnsuppType => "SEARCH_UNSUPP_TYPE: Unsupported index type"@,
        QueryErrorCode::NotNumeric => "SEARCH_NOT_NUMERIC: Could not convert value to a number"@,
        QueryErrorCode::TimedOut => "SEARCH_TIMED_OUT: Timeout limit was reached"@,
        QueryErrorCode::NoParam => "SEARCH_PARAM_NOT_FOUND: Parameter not found"@,
        QueryErrorCode::DupParam => "SEARCH_DUP_PARAM: Parameter was specified twice"@,
        QueryErrorCode::BadVal => "SEARCH_BAD_VAL: Invalid value was given"@,
        QueryErrorCode::NonHybrid => "SEARCH_NON_HYBRID: hybrid query attributes were sent for a non-hybrid query"@,
        QueryErrorCode::HybridNonExist => "SEARCH_HYBRID_NON_EXIST: invalid hybrid policy was given"@,
        QueryErrorCode::AdhocWithBatchSize => "SEARCH_ADHOC_WITH_BATCH_SIZE: 'batch size' is irrelevant for 'ADHOC_BF' policy"@,
        QueryErrorCode::AdhocWithEfRuntime => "SEARCH_ADHOC_WITH_EF_RUNTIME: 'EF_RUNTIME' is irrelevant for 'ADHOC_BF' policy"@,
        QueryErrorCode::NonRange => "SEARCH_NON_RANGE: range query attributes were sent for a non-range query"@,
        QueryErrorCode::Missing => "SEARCH_MISSING: 'ismissing' requires field to be defined with 'INDEXMISSING'"@,
        QueryErrorCode::Mismatch => "SEARCH_MISMATCH: Index mismatch: Shard index is different than queried index"@,
        QueryErrorCode::UnknownIndex => "SEARCH_INDEX_NOT_FOUND: Index not found"@,
        QueryErrorCode::DroppedBackground => "SEARCH_DROPPED_BACKGROUND: The index was dropped before the query could be executed"@,
        QueryErrorCode::AliasConflict => "SEARCH_ALIAS_CONFLICT: Alias conflicts with an existing index name"@,
        QueryErrorCode::IndexBgOOMFail => "SEARCH_INDEX_BG_OOM_FAIL: Index background scan did not complete due to OOM"@,
        QueryErrorCode::WeightNotAllowed => "SEARCH_WEIGHT_NOT_ALLOWED: Weight attributes are not allowed"@,
        QueryErrorCode::VectorNotAllowed => "SEARCH_VECTOR_NOT_ALLOWED: Vector queries are not allowed"@,
        QueryErrorCode::OutOfMemory => "SEARCH_OUT_OF_MEMORY: Not enough memory available to execute the query"@,
    }
}

impl Default for QueryErrorCode {
    fn default() -> (r: QueryErrorCode)
        ensures
            r == QueryErrorCode::Success,
    {
        QueryErrorCode::Success
    }
}

impl QueryErrorCode {
    /// Whether this code means "no error".
    pub fn is_ok(self) -> (r: bool)
        ensures
            r <==> self == QueryErrorCode::Success,
    {
        matches!(self, QueryErrorCode::Success)
    }

    /// The text that describes this code, as handed to the caller.
    pub fn to_c_str(self) -> (r: &'static str)
        ensures
            r@ == code_text(self),
    {
        match self {
            QueryErrorCode::Success => "Success (not an error)",
            QueryErrorCode::Generic => "SEARCH_GENERIC: Generic error evaluating the query",
            QueryErrorCode::Syntax => "SEARCH_SYNTAX: Parsing/Syntax error for query string",
            QueryErrorCode::ParseArgs => "SEARCH_PARSE_ARGS: Error parsing query/aggregation arguments",
            QueryErrorCode::AddArgs => "SEARCH_ADD_ARGS: Error parsing document indexing arguments",
            QueryErrorCode::Expr => "SEARCH_EXPR: Parsing/Evaluating dynamic expression failed",
            QueryErrorCode::Keyword => "SEARCH_KEYWORD: Could not handle query keyword",
            QueryErrorCode::NoResults => "SEARCH_NO_RESULTS: Query matches no results",
            QueryErrorCode::BadAttr => "SEARCH_BAD_ATTR: Attribute not supported for term",
            QueryErrorCode::Inval => "SEARCH_INVAL: Could not validate the query nodes (bad attribute?)",
            QueryErrorCode::BuildPlan => "SEARCH_BUILD_PLAN: Could not build plan from query",
            QueryErrorCode::ConstructPipeline => "SEARCH_CONSTRUCT_PIPELINE: Could not construct query pipeline",
            QueryErrorCode::NoReducer => "SEARCH_NO_REDUCER: Reducer not found",
            QueryErrorCode::ReducerGeneric => "SEARCH_REDUCER_GENERIC: Generic reducer error",
            QueryErrorCode::AggPlan => "SEARCH_AGG_PLAN: Could not plan aggregation request",
            QueryErrorCode::CursorAlloc => "SEARCH_CURSOR_ALLOC: Could not allocate a cursor",
            QueryErrorCode::ReducerInit => "SEARCH_REDUCER_INIT: Could not initialize reducer",
            QueryErrorCode::QString => "SEARCH_QSTRING: Bad query string",
            QueryErrorCode::NoPropKey => "SEARCH_NO_PROP_KEY: Property not found in schema",
            QueryErrorCode::NoPropVal => "SEARCH_NO_PROP_VAL: Value not found in result (not a hard error)",
            QueryErrorCode::NoDoc => "SEARCH_NO_DOC: Document not found",
            QueryErrorCode::NoOption => "SEARCH_NO_OPTION: Invalid option",
            QueryErrorCode::RedisKeyType => "SEARCH_REDIS_KEY_TYPE: Invalid Redis key",
            QueryErrorCode::InvalPath => "SEARCH_INVAL_PATH: Invalid path",
            QueryErrorCode::IndexExists => "SEARCH_INDEX_EXISTS: Index already exists",
            QueryErrorCode::BadOption => "SEARCH_BAD_OPTION: Option not supported for current mode",
            QueryErrorCode::BadOrderOption => "SEARCH_BAD_ORDER_OPTION: Path with undefined ordering does not support slop/inorder",
            QueryErrorCode::Limit => "SEARCH_LIMIT: Limit exceeded",
            QueryErrorCode::NoIndex => "SEARCH_INDEX_NOT_FOUND: Index not found",
            QueryErrorCode::DocExists => "SEARCH_DOC_EXISTS: Document already exists",
            QueryErrorCode::DocNotAdded => "SEARCH_DOC_NOT_ADDED: Document was not added because condition was unmet",
            QueryErrorCode::DupField => "SEARCH_DUP_FIELD: Field was specified twice",
            QueryErrorCode::GeoFormat => r#"SEARCH_GEO_FORMAT: Invalid lon/lat format. Use "lon lat" or "lon,lat""#,
            QueryErrorCode::NoDistribute => "SEARCH_NO_DISTRIBUTE: Could not distribute the operation",
            QueryErrorCode::UnsuppType => "SEARCH_UNSUPP_TYPE: Unsupported index type",
            QueryErrorCode::NotNumeric => "SEARCH_NOT_NUMERIC: Could not convert value to a number",
            QueryErrorCode::TimedOut => "SEARCH_TIMED_OUT: Timeout limit was reached",
            QueryErrorCode::NoParam => "SEARCH_PARAM_NOT_FOUND: Parameter not found",
            QueryErrorCode::DupParam => "SEARCH_DUP_PARAM: Parameter was specified twice",
            QueryErrorCode::BadVal => "SEARCH_BAD_VAL: Invalid value was given",
            QueryErrorCode::NonHybrid => "SEARCH_NON_HYBRID: hybrid query attributes were sent for a non-hybrid query",
            QueryErrorCode::HybridNonExist => "SEARCH_HYBRID_NON_EXIST: invalid hybrid policy was given",
            QueryErrorCode::AdhocWithBatchSize => "SEARCH_ADHOC_WITH_BATCH_SIZE: 'batch size' is irrelevant for 'ADHOC_BF' policy",
            QueryErrorCode::AdhocWithEfRuntime => "SEARCH_ADHOC_WITH_EF_RUNTIME: 'EF_RUNTIME' is irrelevant for 'ADHOC_BF' policy",
            QueryErrorCode::NonRange => "SEARCH_NON_RANGE: range query attributes were sent for a non-range query",
            QueryErrorCode::Missing => "SEARCH_MISSING: 'ismissing' requires field to be defined with 'INDEXMISSING'",
            QueryErrorCode::Mismatch => "SEARCH_MISMATCH: Index mismatch: Shard index is different than queried index",
            QueryErrorCode::UnknownIndex => "SEARCH_INDEX_NOT_FOUND: Index not found",
            QueryErrorCode::DroppedBackground => "SEARCH_DROPPED_BACKGROUND: The index was dropped before the query could be executed",
            QueryErrorCode::AliasConflict => "SEARCH_ALIAS_CONFLICT: Alias conflicts with an existing index name",
            QueryErrorCode::IndexBgOOMFail => "SEARCH_INDEX_BG_OOM_FAIL: Index background scan did not complete due to OOM",
            QueryErrorCode::WeightNotAllowed => "SEARCH_WEIGHT_NOT_ALLOWED: Weight attributes are not allowed",
            QueryErrorCode::VectorNotAllowed => "SEARCH_VECTOR_NOT_ALLOWED: Vector queries are not allowed",
            QueryErrorCode::OutOfMemory => "SEARCH_OUT_OF_MEMORY: Not enough memory available to execute the query",
        }
    }
}

/// Warnings collected while a query runs. Each flag, once raised, stays raised.
#[derive(Clone, Copy, Debug, PartialEq, Eq, Structural)]
pub struct Warnings {
    reached_max_prefix_expansions: bool,
    out_of_memory: bool,
}

impl Default for Warnings {
    fn default() -> (r: Warnings)
        ensures
            r == Warnings::empty_spec(),
            !r.spec_reached_max_prefix_expansions(),
            !r.spec_out_of_memory(),
    {
        Warnings { reached_max_prefix_expansions: false, out_of_memory: false }
    }
}

impl Warnings {
    pub closed spec fn spec_reached_max_prefix_expansions(&self) -> bool {
        self.reached_max_prefix_expansions
    }

    pub closed spec fn spec_out_of_memory(&self) -> bool {
        self.out_of_memory
    }

    pub fn reached_max_prefix_expansions(&self) -> (r: bool)
        ensures
            r == self.spec_reached_max_prefix_expansions(),
    {
        self.reached_max_prefix_expansions
    }

    /// Raises the prefix-expansion flag and leaves the other one as it was.
    pub fn set_reached_max_prefix_expansions(&mut self)
        ensures
            final(self).spec_reached_max_prefix_expansions(),
            final(self).spec_out_of_memory() == old(self).spec_out_of_memory(),
    {
        self.reached_max_prefix_expansions = true;
    }

    pub fn out_of_memory(&self) -> (r: bool)
        ensures
            r == self.spec_out_of_memory(),
    {
        self.out_of_memory
    }

    /// Raises the out-of-memory flag and leaves the other one as it was.
    pub fn set_out_of_memory(&mut self)
        ensures
            final(self).spec_out_of_memory(),
            final(self).spec_reached_max_prefix_expansions()
                == old(self).spec_reached_max_prefix_expansions(),
    {
        self.out_of_memory = true;
    }
}

/// An error code with optional public and private messages and the query's warnings.
/// The first error set wins: once the code is not `Success`, setting another one has no effect.
#[derive(Clone, Debug)]
pub struct QueryError {
    code: QueryErrorCode,
    public_message: Option<String>,
    private_message: Option<String>,
    warnings: Warnings,
}

/// The view of a message: its characters, if there is one.
pub open spec fn message_view(m: Option<String>) -> Option<Seq<char>> {
    match m {
        Some(s) => Some(s@),
        None => None,
    }
}

/// The view of a borrowed message.
pub open spec fn str_message_view(m: Option<&str>) -> Option<Seq<char>> {
    match m {
        Some(s) => Some(s@),
        None => None,
    }
}

impl Default for QueryError {
    fn default() -> (r: QueryError)
        ensures
            r.spec_code() == QueryErrorCode::Success,
            r.spec_public_message() is None,
            r.spec_private_message() is None,
            r.spec_warnings() == Warnings::empty_spec(),
            !r.spec_warnings().spec_reached_max_prefix_expansions(),
            !r.spec_warnings().spec_out_of_memory(),
    {
        QueryError {
            code: QueryErrorCode::Success,
            public_message: None,
            private_message: None,
            warnings: Warnings { reached_max_prefix_expansions: false, out_of_memory: false },
        }
    }
}

impl Warnings {
    /// No warning raised.
    pub closed spec fn empty_spec() -> Warnings {
        Warnings { reached_max_prefix_expansions: false, out_of_memory: false }
    }
}

impl QueryError {
    pub closed spec fn spec_code(&self) -> QueryErrorCode {
        self.code
    }

    pub closed spec fn spec_public_message(&self) -> Option<Seq<char>> {
        message_view(self.public_message)
    }

    pub closed spec fn spec_private_message(&self) -> Option<Seq<char>> {
        message_view(self.private_message)
    }

    pub closed spec fn spec_warnings(&self) -> Warnings {
        self.warnings
    }

    pub fn is_ok(&self) -> (r: bool)
        ensures
            r <==> self.spec_code() == QueryErrorCode::Success,
    {
        self.code.is_ok()
    }

    pub fn code(&self) -> (r: QueryErrorCode)
        ensures
            r == self.spec_code(),
    {
        self.code
    }

    /// Sets the code, unless an error is already recorded.
    pub fn set_code(&mut self, code: QueryErrorCode)
        ensures
            final(self).spec_code() == (if old(self).spec_code() == QueryErrorCode::Success {
                code
            } else {
                old(self).spec_code()
            }),
            final(self).spec_public_message() == old(self).spec_public_message(),
            final(self).spec_private_message() == old(self).spec_private_message(),
            final(self).spec_warnings() == old(self).spec_warnings(),
    {
        if !self.is_ok() {
            return;
        }
        self.code = code;
    }

    pub fn public_message(&self) -> (r: Option<&str>)
        ensures
            str_message_view(r) == self.spec_public_message(),
    {
        match &self.public_message {
            Some(s) => Some(s.as_str()),
            None => None,
        }
    }

    pub fn private_message(&self) -> (r: Option<&str>)
        ensures
            str_message_view(r) == self.spec_private_message(),
    {
        match &self.private_message {
            Some(s) => Some(s.as_str()),
            None => None,
        }
    }

    /// Replaces the private message, whatever the code.
    pub fn set_private_message(&mut self, private_message: Option<String>)
        ensures
            final(self).spec_private_message() == message_view(private_message),
            final(self).spec_code() == old(self).spec_code(),
            final(self).spec_public_message() == old(self).spec_public_message(),
            final(self).spec_warnings() == old(self).spec_warnings(),
    {
        self.private_message = private_message;
    }

    /// Sets the code and uses `message` as both the public and the private message,
    /// unless an error is already recorded, in which case nothing changes.
    pub fn set_code_and_message(&mut self, code: QueryErrorCode, message: Option<String>)
        ensures
            old(self).spec_code() == QueryErrorCode::Success ==> {
                &&& final(self).spec_code() == code
                &&& final(self).spec_public_message() == message_view(message)
                &&& final(self).spec_private_message() == message_view(message)
            },
            old(self).spec_code() != QueryErrorCode::Success ==> {
                &&& final(self).spec_code() == old(self).spec_code()
                &&& final(self).spec_public_message() == old(self).spec_public_message()
                &&& final(self).spec_private_message() == old(self).spec_private_message()
            },
            final(self).spec_warnings() == old(self).spec_warnings(),
    {
        if !self.is_ok() {
            return;
        }
        self.code = code;
        self.public_message = match &message {
            Some(s) => Some(s.clone()),
            None => None,
        };
        self.private_message = message;
    }

    pub fn warnings(&self) -> (r: &Warnings)
        ensures
            *r == self.spec_warnings(),
    {
        &self.warnings
    }

    /// Lends the warnings out for update; whatever the borrower leaves in them is kept.
    pub fn warnings_mut(&mut self) -> (r: &mut Warnings)
        ensures
            *r == old(self).spec_warnings(),
            final(self).spec_warnings() == *final(r),
            final(self).spec_code() == old(self).spec_code(),
            final(self).spec_public_message() == old(self).spec_public_message(),
            final(self).spec_private_message() == old(self).spec_private_message(),
    {
        &mut self.warnings
    }

    /// Resets to the state of a fresh value: no error, no messages, no warnings.
    pub fn clear(&mut self)
        ensures
            final(self).spec_code() == QueryErrorCode::Success,
            final(self).spec_public_message() is None,
            final(self).spec_private_message() is None,
            final(self).spec_warnings() == Warnings::empty_spec(),
            !final(self).spec_warnings().spec_reached_max_prefix_expansions(),
            !final(self).spec_warnings().spec_out_of_memory(),
    {
        *self = QueryError::default();
    }
}

} // verus!
