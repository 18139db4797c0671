use vstd::prelude::*;
use vstd::utf8::encode_utf8;

verus! {

/// Return code of the native routines for a call that went through.
pub const RMW_RET_OK: i32 = 0;

/// Result codes of the native node name validation routine.
pub const RMW_NODE_NAME_VALID: u32 = 0;
pub const RMW_NODE_NAME_INVALID_IS_EMPTY_STRING: u32 = 1;
pub const RMW_NODE_NAME_INVALID_CONTAINS_UNALLOWED_CHARACTERS: u32 = 2;
pub const RMW_NODE_NAME_INVALID_STARTS_WITH_NUMBER: u32 = 3;
pub const RMW_NODE_NAME_INVALID_TOO_LONG: u32 = 4;

/// Result codes of the native namespace validation routine.
pub const RMW_NAMESPACE_VALID: u32 = 0;
pub const RMW_NAMESPACE_INVALID_IS_EMPTY_STRING: u32 = 1;
pub const RMW_NAMESPACE_INVALID_NOT_ABSOLUTE: u32 = 2;
pub const RMW_NAMESPACE_INVALID_ENDS_WITH_FORWARD_SLASH: u32 = 3;
pub const RMW_NAMESPACE_INVALID_CONTAINS_UNALLOWED_CHARACTERS: u32 = 4;
pub const RMW_NAMESPACE_INVALID_CONTAINS_REPEATED_FORWARD_SLASH: u32 = 5;
pub const RMW_NAMESPACE_INVALID_NAME_TOKEN_STARTS_WITH_NUMBER: u32 = 6;
pub const RMW_NAMESPACE_INVALID_TOO_LONG: u32 = 7;

/// Why a node name was rejected.
///
/// `InvalidCString` carries the byte position of the first zero byte: such a
/// name cannot be handed to the native runtime at all.
#[derive(Debug, PartialEq, Eq, Structural)]
pub enum NodeNameValidationError {
    InvalidCString(usize),
    EmptyString,
    ContainsUnallowedCharacters(usize),
    StartsWithNumber,
    IsTooLong,
}

/// Why a node namespace was rejected.
#[derive(Debug, PartialEq, Eq, Structural)]
pub enum NodeNamespaceValidationError {
    InvalidCString(usize),
    EmptyString,
    ContainsUnallowedCharacters(usize),
    StartsWithNumber,
    IsTooLong,
    NotAbsolute,
    EndsWithForwardSlash,
    ContainsRepeatedForwardSlash(usize),
}

/// The bytes hold no zero byte.
pub open spec fn nul_free(b: Seq<u8>) -> bool {
    forall|i: int| 0 <= i < b.len() ==> b[i] != 0
}

/// `p` is the position of the first zero byte of `b`.
pub open spec fn is_first_nul(b: Seq<u8>, p: int) -> bool {
    0 <= p < b.len() && b[p] == 0 && nul_free(b.take(p))
}

/// The position of the first zero byte of `b` (meaningful where there is one).
pub open spec fn first_nul(b: Seq<u8>) -> int {
    choose|p: int| is_first_nul(b, p)
}

/// A sequence with a zero byte has exactly one first zero byte.
pub proof fn lemma_first_nul_unique(b: Seq<u8>, p: int)
    requires
        is_first_nul(b, p),
    ensures
        first_nul(b) == p,
        !nul_free(b),
{
    assert(is_first_nul(b, first_nul(b)));
    let q = first_nul(b);
    if q < p {
        assert(b.take(p)[q] == b[q]);
    } else if p < q {
        assert(b.take(q)[p] == b[p]);
    }
}

/// What a native string built from `b` holds: the bytes and a terminating zero;
/// or the position of the zero byte that makes that impossible.
pub open spec fn c_string_of(b: Seq<u8>) -> Result<Seq<u8>, int> {
    if nul_free(b) {
        Ok(b.push(0u8))
    } else {
        Err(first_nul(b))
    }
}

/// Builds the zero-terminated byte string handed to the native runtime,
/// or reports the position of an embedded zero byte.
pub fn to_c_string(s: &str) -> (r: Result<Vec<u8>, usize>)
    ensures
        c_string_of(encode_utf8(s@)) == match r {
            Ok(v) => Ok::<Seq<u8>, int>(v@),
            Err(p) => Err::<Seq<u8>, int>(p as int),
        },
{
    let b = s.as_bytes();
    let ghost bs = encode_utf8(s@);
    assert(b@ == bs);
    let mut out: Vec<u8> = Vec::new();
    let mut i: usize = 0;
    while i < b.len()
        invariant
            b@ == bs,
            bs == encode_utf8(s@),
            0 <= i <= b.len(),
            out@ == bs.take(i as int),
            nul_free(bs.take(i as int)),
        decreases b.len() - i,
    {
        if b[i] == 0 {
            proof {
                lemma_first_nul_unique(bs, i as int);
            }
            return Err(i);
        }
        out.push(b[i]);
        i = i + 1;
        proof {
            assert(bs.take(i as int) =~= bs.take(i - 1).push(b@[i - 1]));
        }
    }
    assert(bs.take(i as int) =~= bs);
    out.push(0u8);
    Ok(out)
}

/// What the native node name routine's report means: `None` where the call
/// itself failed or the code is none of the documented ones.
pub open spec fn name_verdict(ret: i32, code: u32, index: usize) -> Option<
    Result<(), NodeNameValidationError>,
> {
    if ret != RMW_RET_OK {
        None
    } else if code == RMW_NODE_NAME_VALID {
        Some(Ok(()))
    } else if code == RMW_NODE_NAME_INVALID_IS_EMPTY_STRING {
        Some(Err(NodeNameValidationError::EmptyString))
    } else if code == RMW_NODE_NAME_INVALID_CONTAINS_UNALLOWED_CHARACTERS {
        Some(Err(NodeNameValidationError::ContainsUnallowedCharacters(index)))
    } else if code == RMW_NODE_NAME_INVALID_STARTS_WITH_NUMBER {
        Some(Err(NodeNameValidationError::StartsWithNumber))
    } else if code == RMW_NODE_NAME_INVALID_TOO_LONG {
        Some(Err(NodeNameValidationError::IsTooLong))
    } else {
        None
    }
}

/// What the native namespace routine's report means: `None` where the call
/// itself failed or the code is none of the documented ones.
pub open spec fn namespace_verdict(ret: i32, code: u32, index: usize) -> Option<
    Result<(), NodeNamespaceValidationError>,
> {
    if ret != RMW_RET_OK {
        None
    } else if code == RMW_NAMESPACE_VALID {
        Some(Ok(()))
    } else if code == RMW_NAMESPACE_INVALID_IS_EMPTY_STRING {
        Some(Err(NodeNamespaceValidationError::EmptyString))
    } else if code == RMW_NAMESPACE_INVALID_NOT_ABSOLUTE {
        Some(Err(NodeNamespaceValidationError::NotAbsolute))
    } else if code == RMW_NAMESPACE_INVALID_ENDS_WITH_FORWARD_SLASH {
        Some(Err(NodeNamespaceValidationError::EndsWithForwardSlash))
    } else if code == RMW_NAMESPACE_INVALID_CONTAINS_UNALLOWED_CHARACTERS {
        Some(Err(NodeNamespaceValidationError::ContainsUnallowedCharacters(index)))
    } else if code == RMW_NAMESPACE_INVALID_CONTAINS_REPEATED_FORWARD_SLASH {
        Some(Err(NodeNamespaceValidationError::ContainsRepeatedForwardSlash(index)))
    } else if code == RMW_NAMESPACE_INVALID_NAME_TOKEN_STARTS_WITH_NUMBER {
        Some(Err(NodeNamespaceValidationError::StartsWithNumber))
    } else if code == RMW_NAMESPACE_INVALID_TOO_LONG {
        Some(Err(NodeNamespaceValidationError::IsTooLong))
    } else {
        None
    }
}

/// The outcome of validating the node name `name` whose native report is
/// `(ret, code, index)`. A name with a zero byte is rejected before any native
/// call, so the report does not matter for it.
pub open spec fn name_outcome(name: Seq<u8>, ret: i32, code: u32, index: usize) -> Option<
    Result<(), NodeNameValidationError>,
> {
    match c_string_of(name) {
        Err(p) => Some(Err(NodeNameValidationError::InvalidCString(p as usize))),
        Ok(_) => name_verdict(ret, code, index),
    }
}

/// The outcome of validating the namespace `ns` whose native report is
/// `(ret, code, index)`.
pub open spec fn namespace_outcome(ns: Seq<u8>, ret: i32, code: u32, index: usize) -> Option<
    Result<(), NodeNamespaceValidationError>,
> {
    match c_string_of(ns) {
        Err(p) => Some(Err(NodeNamespaceValidationError::InvalidCString(p as usize))),
        Ok(_) => namespace_verdict(ret, code, index),
    }
}

/// Validation holds no state: the outcome on an identifier depends on its bytes
/// and on the native report on them alone, so validating the same identifier
/// twice gives the same outcome. An identifier with a zero byte is rejected
/// whatever the report.
pub proof fn lemma_validation_repeatable(b: Seq<u8>, first: ValidationReport, second: ValidationReport)
    requires
        nul_free(b) ==> first == second,
    ensures
        name_outcome(b, first.0, first.1, first.2) == name_outcome(b, second.0, second.1, second.2),
        namespace_outcome(b, first.0, first.1, first.2) == namespace_outcome(
            b,
            second.0,
            second.1,
            second.2,
        ),
{
}

/// A node of the ROS graph. Node construction is not offered yet; the type
/// carries the validation rules that a node's name and namespace must pass.
pub struct Node {
    _private: (),
}

impl Node {
    /// First step of node name validation: the zero-terminated bytes to hand to
    /// the native routine, or `InvalidCString` with the position of a zero byte.
    pub fn node_name_c_string(name: &str) -> (r: Result<Vec<u8>, NodeNameValidationError>)
        ensures
            match c_string_of(encode_utf8(name@)) {
                Ok(c) => r matches Ok(v) && v@ == c,
                Err(p) => r == Err::<Vec<u8>, _>(
                    NodeNameValidationError::InvalidCString(p as usize),
                ),
            },
    {
        match to_c_string(name) {
            Ok(v) => Ok(v),
            Err(p) => Err(NodeNameValidationError::InvalidCString(p)),
        }
    }

    /// Second step of node name validation: reads the native routine's return
    /// value `ret`, result code `code` and offending position `invalid_index`.
    /// `None` means the native routine broke its own contract.
    pub fn node_name_verdict(ret: i32, code: u32, invalid_index: usize) -> (r: Option<
        Result<(), NodeNameValidationError>,
    >)
        ensures
            r == name_verdict(ret, code, invalid_index),
    {
        if ret != RMW_RET_OK {
            None
        } else if code == RMW_NODE_NAME_VALID {
            Some(Ok(()))
        } else if code == RMW_NODE_NAME_INVALID_IS_EMPTY_STRING {
            Some(Err(NodeNameValidationError::EmptyString))
        } else if code == RMW_NODE_NAME_INVALID_CONTAINS_UNALLOWED_CHARACTERS {
            Some(Err(NodeNameValidationError::ContainsUnallowedCharacters(invalid_index)))
        } else if code == RMW_NODE_NAME_INVALID_STARTS_WITH_NUMBER {
            Some(Err(NodeNameValidationError::StartsWithNumber))
        } else if code == RMW_NODE_NAME_INVALID_TOO_LONG {
            Some(Err(NodeNameValidationError::IsTooLong))
        } else {
            None
        }
    }

    /// First step of namespace validation: the zero-terminated bytes to hand to
    /// the native routine, or `InvalidCString` with the position of a zero byte.
    pub fn node_namespace_c_string(namespace: &str) -> (r: Result<
        Vec<u8>,
        NodeNamespaceValidationError,
    >)
        ensures
            match c_string_of(encode_utf8(namespace@)) {
                Ok(c) => r matches Ok(v) && v@ == c,
                Err(p) => r == Err::<Vec<u8>, _>(
                    NodeNamespaceValidationError::InvalidCString(p as usize),
                ),
            },
    {
        match to_c_string(namespace) {
            Ok(v) => Ok(v),
            Err(p) => Err(NodeNamespaceValidationError::InvalidCString(p)),
        }
    }

    /// Second step of namespace validation: reads the native routine's return
    /// value, result code and offending position.
    /// `None` means the native routine broke its own contract.
    pub fn node_namespace_verdict(ret: i32, code: u32, invalid_index: usize) -> (r: Option<
        Result<(), NodeNamespaceValidationError>,
    >)
        ensures
            r == namespace_verdict(ret, code, invalid_index),
    {
        if ret != RMW_RET_OK {
            None
        } else if code == RMW_NAMESPACE_VALID {
            Some(Ok(()))
        } else if code == RMW_NAMESPACE_INVALID_IS_EMPTY_STRING {
            Some(Err(NodeNamespaceValidationError::EmptyString))
        } else if code == RMW_NAMESPACE_INVALID_NOT_ABSOLUTE {
            Some(Err(NodeNamespaceValidationError::NotAbsolute))
        } else if code == RMW_NAMESPACE_INVALID_ENDS_WITH_FORWARD_SLASH {
            Some(Err(NodeNamespaceValidationError::EndsWithForwardSlash))
        } else if code == RMW_NAMESPACE_INVALID_CONTAINS_UNALLOWED_CHARACTERS {
            Some(Err(NodeNamespaceValidationError::ContainsUnallowedCharacters(invalid_index)))
        } else if code == RMW_NAMESPACE_INVALID_CONTAINS_REPEATED_FORWARD_SLASH {
            Some(Err(NodeNamespaceValidationError::ContainsRepeatedForwardSlash(invalid_index)))
        } else if code == RMW_NAMESPACE_INVALID_NAME_TOKEN_STARTS_WITH_NUMBER {
            Some(Err(NodeNamespaceValidationError::StartsWithNumber))
        } else if code == RMW_NAMESPACE_INVALID_TOO_LONG {
            Some(Err(NodeNamespaceValidationError::IsTooLong))
        } else {
            None
        }
    }
}

/// Options handed to the native runtime when a node is created.
#[derive(Debug, Clone, Copy, PartialEq, Eq, Structural)]
pub struct NodeOptions {
    /// Whether the node takes the process-wide command line arguments.
    pub use_global_arguments: bool,
    /// Whether the node publishes its log messages on the rosout topic.
    pub enable_rosout: bool,
}

impl NodeOptions {
    /// The runtime's default node options: global arguments used, rosout enabled.
    pub fn new() -> (r: NodeOptions)
        ensures
            r.use_global_arguments,
            r.enable_rosout,
    {
        NodeOptions { use_global_arguments: true, enable_rosout: true }
    }
}

/// A native validation report: return value, result code, offending position.
pub type ValidationReport = (i32, u32, usize);

/// Collects the name, namespace and options of a node to be created.
///
/// Every name or namespace it holds was accepted by validation; the namespace
/// is otherwise the default, empty one.
pub struct NodeBuilder {
    name: Option<String>,
    namespace: String,
    options: NodeOptions,
    name_report: Ghost<Option<ValidationReport>>,
    namespace_report: Ghost<Option<ValidationReport>>,
}

impl NodeBuilder {
    #[verifier::type_invariant]
    spec fn inv(&self) -> bool {
        &&& match self.name {
            None => self.name_report@ is None,
            Some(n) => self.name_report@ matches Some(rep) && name_outcome(
                encode_utf8(n@),
                rep.0,
                rep.1,
                rep.2,
            ) == Some(Ok::<(), NodeNameValidationError>(())),
        }
        &&& match self.namespace_report@ {
            None => self.namespace@.len() == 0,
            Some(rep) => namespace_outcome(encode_utf8(self.namespace@), rep.0, rep.1, rep.2)
                == Some(Ok::<(), NodeNamespaceValidationError>(())),
        }
    }

    /// The node name set so far.
    pub closed spec fn name_view(&self) -> Option<Seq<char>> {
        match self.name {
            Some(n) => Some(n@),
            None => None,
        }
    }

    /// The node namespace set so far.
    pub closed spec fn namespace_view(&self) -> Seq<char> {
        self.namespace@
    }

    /// The node options set so far.
    pub closed spec fn options_view(&self) -> NodeOptions {
        self.options
    }

    /// The native report that accepted the stored name.
    pub closed spec fn name_report_view(&self) -> Option<ValidationReport> {
        self.name_report@
    }

    /// The native report that accepted the stored namespace, if one was set.
    pub closed spec fn namespace_report_view(&self) -> Option<ValidationReport> {
        self.namespace_report@
    }

    /// Sets the node name, given the native validation report on it.
    ///
    /// The name is stored only where validation accepts it; otherwise the
    /// reason is returned and the builder is gone.
    pub fn name(self, name: String, ret: i32, code: u32, invalid_index: usize) -> (r: Result<
        NodeBuilder,
        NodeNameValidationError,
    >)
        requires
            name_outcome(encode_utf8(name@), ret, code, invalid_index) is Some,
        ensures
            match name_outcome(encode_utf8(name@), ret, code, invalid_index) {
                Some(Ok(())) => r matches Ok(b) && b.holds_only_accepted() && b.name_view() == Some(name@)
                    && b.name_report_view() == Some((ret, code, invalid_index))
                    && b.namespace_view() == self.namespace_view()
                    && b.namespace_report_view() == self.namespace_report_view()
                    && b.options_view() == self.options_view(),
                Some(Err(e)) => r == Err::<NodeBuilder, _>(e),
                None => false,
            },
    {
        proof {
            use_type_invariant(&self);
        }
        let checked = match Node::node_name_c_string(name.as_str()) {
            Ok(_) => Node::node_name_verdict(ret, code, invalid_index),
            Err(e) => Some(Err(e)),
        };
        match checked {
            Some(Ok(())) => {
                let NodeBuilder { name: _, namespace, options, name_report: _, namespace_report } =
                    self;
                let b = NodeBuilder {
                    name: Some(name),
                    namespace,
                    options,
                    name_report: Ghost(Some((ret, code, invalid_index))),
                    namespace_report,
                };
                proof {
                    use_type_invariant(&b);
                }
                Ok(b)
            },
            Some(Err(e)) => Err(e),
            None => unreached(),
        }
    }

    /// Sets the node namespace, given the native validation report on it.
    ///
    /// The namespace is stored only where validation accepts it; otherwise the
    /// reason is returned and the builder is gone.
    pub fn namespace(self, namespace: String, ret: i32, code: u32, invalid_index: usize) -> (r:
        Result<NodeBuilder, NodeNamespaceValidationError>)
        requires
            namespace_outcome(encode_utf8(namespace@), ret, code, invalid_index) is Some,
        ensures
            match namespace_outcome(encode_utf8(namespace@), ret, code, invalid_index) {
                Some(Ok(())) => r matches Ok(b) && b.holds_only_accepted() && b.namespace_view() == namespace@
                    && b.namespace_report_view() == Some((ret, code, invalid_index))
                    && b.name_view() == self.name_view()
                    && b.name_report_view() == self.name_report_view()
                    && b.options_view() == self.options_view(),
                Some(Err(e)) => r == Err::<NodeBuilder, _>(e),
                None => false,
            },
    {
        proof {
            use_type_invariant(&self);
        }
        let checked = match Node::node_namespace_c_string(namespace.as_str()) {
            Ok(_) => Node::node_namespace_verdict(ret, code, invalid_index),
            Err(e) => Some(Err(e)),
        };
        match checked {
            Some(Ok(())) => {
                let NodeBuilder { name, namespace: _, options, name_report, namespace_report: _ } =
                    self;
                let b = NodeBuilder {
                    name,
                    namespace,
                    options,
                    name_report,
                    namespace_report: Ghost(Some((ret, code, invalid_index))),
                };
                proof {
                    use_type_invariant(&b);
                }
                Ok(b)
            },
            Some(Err(e)) => Err(e),
            None => unreached(),
        }
    }

    /// The node name set so far.
    pub fn get_name(&self) -> (r: Option<&str>)
        ensures
            match r {
                Some(n) => self.name_view() == Some(n@),
                None => self.name_view() is None,
            },
    {
        match &self.name {
            Some(n) => Some(n.as_str()),
            None => None,
        }
    }

    /// The node namespace set so far.
    pub fn get_namespace(&self) -> (r: &str)
        ensures
            r@ == self.namespace_view(),
    {
        self.namespace.as_str()
    }

    /// The node options set so far.
    pub fn get_options(&self) -> (r: NodeOptions)
        ensures
            r == self.options_view(),
    {
        self.options
    }

    /// Enables or disables the rosout topic for the node. Enabled by default.
    pub fn enable_rosout(self, enable: bool) -> (r: NodeBuilder)
        ensures
            r.holds_only_accepted(),
            r.options_view() == (NodeOptions { enable_rosout: enable, ..self.options_view() }),
            r.name_view() == self.name_view(),
            r.name_report_view() == self.name_report_view(),
            r.namespace_view() == self.namespace_view(),
            r.namespace_report_view() == self.namespace_report_view(),
    {
        proof {
            use_type_invariant(&self);
        }
        let NodeBuilder { name, namespace, options, name_report, namespace_report } = self;
        let b = NodeBuilder {
            name,
            namespace,
            options: NodeOptions { enable_rosout: enable, ..options },
            name_report,
            namespace_report,
        };
        proof {
            use_type_invariant(&b);
        }
        b
    }

    /// Every name and namespace the builder holds was accepted by validation on
    /// the native report recorded for it; a namespace never set is the empty
    /// default.
    pub open spec fn holds_only_accepted(&self) -> bool {
        &&&             match self.name_view() {
                None => self.name_report_view() is None,
                Some(n) => self.name_report_view() matches Some(rep) && name_outcome(
                    encode_utf8(n),
                    rep.0,
                    rep.1,
                    rep.2,
                ) == Some(Ok::<(), NodeNameValidationError>(())),
            }
        &&& match self.namespace_report_view() {
                None => self.namespace_view().len() == 0,
                Some(rep) => namespace_outcome(encode_utf8(self.namespace_view()), rep.0, rep.1, rep.2)
                    == Some(Ok::<(), NodeNamespaceValidationError>(())),
            }
    }
}

impl Default for NodeBuilder {
    /// A builder with no name, the empty namespace and the default options.
    fn default() -> (r: NodeBuilder)
        ensures
            r.holds_only_accepted(),
            r.name_view() is None,
            r.namespace_view().len() == 0,
            r.options_view() == (NodeOptions { use_global_arguments: true, enable_rosout: true }),
    {
        let b = NodeBuilder {
            name: None,
            namespace: String::new(),
            options: NodeOptions::new(),
            name_report: Ghost(None),
            namespace_report: Ghost(None),
        };
        proof {
            use_type_invariant(&b);
        }
        b
    }
}

} // verus!
