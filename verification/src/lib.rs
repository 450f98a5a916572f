//! Failure taxonomy for a query-execution engine over tabular data.
//!
//! A single closed enum, [`DBError`], captures every distinguishable failure an
//! engine operation can produce: schema-attribute problems, expression-evaluation
//! problems, row bounds, wrapped input/output and allocator failures, and a
//! policy-driven memory-budget refusal. Values are built at the failure site,
//! passed by value up the return chain, and rendered to a stable one-line
//! message at a reporting boundary. Lower-level failures (an input/output error,
//! an allocator error) are carried as their message text, so the taxonomy stays
//! plain data that can move between execution contexts freely.

use vstd::prelude::*;

verus! {

/// Query execution errors.
///
/// The variant set is closed and finite; a value is fixed at construction and
/// only read or rendered afterwards.
pub enum DBError {
    /// Fallback for unclassified conditions.
    Unknown,
    /// An underlying input/output operation failed; carries its message text.
    IO(String),
    /// An external type tag could not be resolved against the known types.
    UnknownType(String),
    /// A query referenced a schema attribute (by name or position) that does not exist.
    AttributeMissing(String),
    /// Mismatched expectation about an attribute's nullability.
    AttributeNullability(String),
    /// Mismatched expectation about an attribute's type.
    AttributeType(String),
    /// Two attributes share a name while building an output schema.
    AttributeDuplicate(String),
    /// An expression received operands of an unsupported type.
    ExpressionInputType(String),
    /// An expression received the wrong operand count.
    ExpressionInputCount(String),
    /// Constant folding was requested on a non-constant expression.
    ExpressionNotCost,
    /// A row index exceeded the batch or table bounds.
    RowOutOfBounds,
    /// The allocator itself refused or failed a request; carries its message text.
    Memory(String),
    /// A resource-budget policy refused an allocation; distinct from `Memory`,
    /// which reports a hard allocator failure.
    MemoryLimit,
}

/// The exact one-line message that rendering produces for each variant.
pub open spec fn render_spec(e: DBError) -> Seq<char> {
    match e {
        DBError::Unknown => "Unknown Error"@,
        DBError::IO(m) => "IO Error "@ + m@,
        DBError::UnknownType(t) => "Unknown/Unexpected Type "@ + t@,
        DBError::AttributeMissing(a) => "Unknown Attribute "@ + a@,
        DBError::AttributeNullability(a) => "Attribute Not Nullable "@ + a@,
        DBError::AttributeType(a) => "Attribute Type Mismatch "@ + a@,
        DBError::AttributeDuplicate(a) => "Duplicate Attribute name "@ + a@ + " in output schema"@,
        DBError::ExpressionInputType(s) => "Invalid expression input type: "@ + s@,
        DBError::ExpressionInputCount(s) => "Invalid expression input count: "@ + s@,
        DBError::ExpressionNotCost => "Expression expected to be const"@,
        DBError::RowOutOfBounds => "Row out of bounds"@,
        DBError::Memory(m) => "Memory allocation failure: "@ + m@,
        DBError::MemoryLimit => "Memory allocation failure due to policy limit"@,
    }
}

/// The character for a single decimal digit value.
pub open spec fn dec_digit(d: nat) -> char
    recommends
        d < 10,
{
    if d == 0 {
        '0'
    } else if d == 1 {
        '1'
    } else if d == 2 {
        '2'
    } else if d == 3 {
        '3'
    } else if d == 4 {
        '4'
    } else if d == 5 {
        '5'
    } else if d == 6 {
        '6'
    } else if d == 7 {
        '7'
    } else if d == 8 {
        '8'
    } else {
        '9'
    }
}

/// The decimal rendering of a natural number, most significant digit first,
/// with no leading zeroes (a lone `'0'` for zero).
pub open spec fn dec_str(n: nat) -> Seq<char>
    decreases n,
{
    if n < 10 {
        seq![dec_digit(n)]
    } else {
        dec_str(n / 10) + seq![dec_digit(n % 10)]
    }
}

/// The payload that the unknown-position constructor attaches: `(pos: N)`.
pub open spec fn unknown_pos_text(pos: nat) -> Seq<char> {
    "(pos: "@ + dec_str(pos) + ")"@
}

/// Appends the character for one decimal digit value.
fn push_dec_digit(s: &mut String, d: usize)
    requires
        d < 10,
    ensures
        final(s)@ == old(s)@ + seq![dec_digit(d as nat)],
{
    proof {
        reveal_strlit("0");
        reveal_strlit("1");
        reveal_strlit("2");
        reveal_strlit("3");
        reveal_strlit("4");
        reveal_strlit("5");
        reveal_strlit("6");
        reveal_strlit("7");
        reveal_strlit("8");
        reveal_strlit("9");
    }
    match d {
        0 => s.append("0"),
        1 => s.append("1"),
        2 => s.append("2"),
        3 => s.append("3"),
        4 => s.append("4"),
        5 => s.append("5"),
        6 => s.append("6"),
        7 => s.append("7"),
        8 => s.append("8"),
        _ => s.append("9"),
    }
    assert(s@ =~= old(s)@ + seq![dec_digit(d as nat)]);
}

/// Appends the decimal rendering of `n`.
fn push_decimal(s: &mut String, n: usize)
    ensures
        final(s)@ == old(s)@ + dec_str(n as nat),
    decreases n,
{
    if n < 10 {
        push_dec_digit(s, n);
    } else {
        assert(n / 10 < n && n / 10 >= 1) by (nonlinear_arith)
            requires
                n >= 10,
        ;
        push_decimal(s, n / 10);
        push_dec_digit(s, n % 10);
        assert((n / 10) as nat == n as nat / 10);
        assert((n % 10) as nat == n as nat % 10);
        assert(s@ =~= old(s)@ + dec_str(n as nat));
    }
}

impl DBError {
    /// Builds the nullability-mismatch failure for the named attribute.
    pub fn make_column_not_nullable(name: String) -> (r: DBError)
        ensures
            r == DBError::AttributeNullability(name),
    {
        DBError::AttributeNullability(name)
    }

    /// Builds the missing-attribute failure for a position reference, with the
    /// position formatted uniformly as `(pos: N)`.
    pub fn make_column_unknown_pos(pos: usize) -> (r: DBError)
        ensures
            r matches DBError::AttributeMissing(a) && a@ == unknown_pos_text(pos as nat),
    {
        let mut text = "(pos: ".to_owned();
        push_decimal(&mut text, pos);
        text.append(")");
        DBError::AttributeMissing(text)
    }

    /// Renders the failure as its stable one-line message. Inspection output and
    /// human-readable output are deliberately the same single formatting path.
    pub fn render(&self) -> (r: String)
        ensures
            r@ == render_spec(*self),
    {
        match self {
            DBError::Unknown => "Unknown Error".to_owned(),
            DBError::IO(m) => {
                let mut r = "IO Error ".to_owned();
                r.append(m.as_str());
                r
            },
            DBError::UnknownType(t) => {
                let mut r = "Unknown/Unexpected Type ".to_owned();
                r.append(t.as_str());
                r
            },
            DBError::AttributeMissing(a) => {
                let mut r = "Unknown Attribute ".to_owned();
                r.append(a.as_str());
                r
            },
            DBError::AttributeNullability(a) => {
                let mut r = "Attribute Not Nullable ".to_owned();
                r.append(a.as_str());
                r
            },
            DBError::AttributeType(a) => {
                let mut r = "Attribute Type Mismatch ".to_owned();
                r.append(a.as_str());
                r
            },
            DBError::AttributeDuplicate(a) => {
                let mut r = "Duplicate Attribute name ".to_owned();
                r.append(a.as_str());
                r.append(" in output schema");
                r
            },
            DBError::ExpressionInputType(s) => {
                let mut r = "Invalid expression input type: ".to_owned();
                r.append(s.as_str());
                r
            },
            DBError::ExpressionInputCount(s) => {
                let mut r = "Invalid expression input count: ".to_owned();
                r.append(s.as_str());
                r
            },
            DBError::ExpressionNotCost => "Expression expected to be const".to_owned(),
            DBError::RowOutOfBounds => "Row out of bounds".to_owned(),
            DBError::Memory(m) => {
                let mut r = "Memory allocation failure: ".to_owned();
                r.append(m.as_str());
                r
            },
            DBError::MemoryLimit => "Memory allocation failure due to policy limit".to_owned(),
        }
    }
}

/// The payload text a variant carries, where it carries one.
pub open spec fn payload_text(e: DBError) -> Option<Seq<char>> {
    match e {
        DBError::Unknown => None,
        DBError::IO(m) => Some(m@),
        DBError::UnknownType(t) => Some(t@),
        DBError::AttributeMissing(a) => Some(a@),
        DBError::AttributeNullability(a) => Some(a@),
        DBError::AttributeType(a) => Some(a@),
        DBError::AttributeDuplicate(a) => Some(a@),
        DBError::ExpressionInputType(s) => Some(s@),
        DBError::ExpressionInputCount(s) => Some(s@),
        DBError::ExpressionNotCost => None,
        DBError::RowOutOfBounds => None,
        DBError::Memory(m) => Some(m@),
        DBError::MemoryLimit => None,
    }
}

/// The length of what rendering appends after the payload: empty for every
/// variant except the duplicate-attribute message, which names the schema.
pub open spec fn suffix_len(e: DBError) -> nat {
    if e is AttributeDuplicate {
        " in output schema"@.len()
    } else {
        0
    }
}

/// Law: for every variant carrying a payload, the rendered message contains the
/// payload's exact text verbatim, as a contiguous run of characters.
pub proof fn lemma_render_contains_payload(e: DBError)
    ensures
        payload_text(e) matches Some(p) ==> exists|i: int|
            0 <= i && i + p.len() <= render_spec(e).len() && #[trigger] render_spec(e).subrange(
                i,
                i + p.len(),
            ) == p,
{
    if payload_text(e) is Some {
        let p = payload_text(e)->Some_0;
        let r = render_spec(e);
        let i = (r.len() - p.len() - suffix_len(e)) as int;
        assert(r.subrange(i, i + p.len()) =~= p);
    }
}

/// Law: the nullability helper renders identically to constructing the
/// nullability variant directly from the same name.
pub proof fn lemma_not_nullable_same_as_direct(helper_result: DBError, name: String)
    requires
        helper_result == DBError::AttributeNullability(name),
    ensures
        render_spec(helper_result) == render_spec(DBError::AttributeNullability(name)),
        render_spec(helper_result) == "Attribute Not Nullable "@ + name@,
{
}

/// Law: for every index, the unknown-position helper's result renders as
/// `Unknown Attribute (pos: N)` with `N` the index in decimal.
pub proof fn lemma_unknown_pos_renders(a: String, pos: nat)
    requires
        a@ == unknown_pos_text(pos),
    ensures
        render_spec(DBError::AttributeMissing(a)) == "Unknown Attribute (pos: "@ + dec_str(pos)
            + ")"@,
{
    reveal_strlit("Unknown Attribute ");
    reveal_strlit("(pos: ");
    reveal_strlit("Unknown Attribute (pos: ");
    assert(render_spec(DBError::AttributeMissing(a)) =~= "Unknown Attribute (pos: "@ + dec_str(pos)
        + ")"@);
}

/// Law: the hard allocator failure and the policy refusal are distinct values
/// and render to different text, whatever detail the hard failure carries.
pub proof fn lemma_memory_variants_distinct(m: String)
    ensures
        DBError::Memory(m) != DBError::MemoryLimit,
        render_spec(DBError::Memory(m)) != render_spec(DBError::MemoryLimit),
{
    reveal_strlit("Memory allocation failure: ");
    reveal_strlit("Memory allocation failure due to policy limit");
    let r1 = render_spec(DBError::Memory(m));
    let r2 = render_spec(DBError::MemoryLimit);
    assert(r1[25] == ':');
    assert(r2[25] == ' ');
}

/// Law: rendering is deterministic, so rendering one constructed value twice
/// yields identical text both times.
pub proof fn lemma_render_idempotent(e: DBError, r1: Seq<char>, r2: Seq<char>)
    requires
        r1 == render_spec(e),
        r2 == render_spec(e),
    ensures
        r1 == r2,
{
}

} // verus!
