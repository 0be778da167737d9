//! Grammar parameters (`[In]`, `[Yield]`, `[Await]`, `[Return]`, ...) and the
//! stack of delimited constructs that error recovery consults.
use vstd::prelude::*;

verus! {

/// One grammar parameter or contextual flag.
#[derive(Debug, Clone, Copy, PartialEq, Eq, Structural)]
pub enum Flag {
    /// `[In]`: the `in` operator is allowed in relational expressions.
    In,
    /// `[Yield]`: inside a generator.
    Yield,
    /// `[Await]`: inside an async function or a module (top-level await).
    Await,
    /// `[Return]`: a `return` statement is allowed.
    Return,
    /// The node is parsed as part of a decorator.
    Decorator,
    /// An `extends` clause is read as a type constraint, not as a conditional type.
    DisallowConditionalTypes,
    /// Inside a declaration file or a `declare` construct.
    Ambient,
    /// After a `"use strict"` directive.
    StrictMode,
}

/// The set of grammar parameters in force. A plain value: saved, changed and
/// restored around a nested production.
#[derive(Debug, Clone, Copy, PartialEq, Eq, Structural)]
pub struct Context {
    pub allow_in: bool,
    pub allow_yield: bool,
    pub allow_await: bool,
    pub allow_return: bool,
    pub decorator: bool,
    pub disallow_conditional_types: bool,
    pub ambient: bool,
    pub strict_mode: bool,
}

impl Context {
    /// Whether `flag` is in the set.
    pub open spec fn has(self, flag: Flag) -> bool {
        match flag {
            Flag::In => self.allow_in,
            Flag::Yield => self.allow_yield,
            Flag::Await => self.allow_await,
            Flag::Return => self.allow_return,
            Flag::Decorator => self.decorator,
            Flag::DisallowConditionalTypes => self.disallow_conditional_types,
            Flag::Ambient => self.ambient,
            Flag::StrictMode => self.strict_mode,
        }
    }

    /// The set of flags, as a mathematical set.
    pub open spec fn view(self) -> Set<Flag> {
        Set::new(|f: Flag| self.has(f))
    }

    /// The context with no flag set.
    pub fn empty() -> (r: Context)
        ensures
            forall|f: Flag| !r.has(f),
    {
        Context {
            allow_in: false,
            allow_yield: false,
            allow_await: false,
            allow_return: false,
            decorator: false,
            disallow_conditional_types: false,
            ambient: false,
            strict_mode: false,
        }
    }

    /// The context that holds `flag` alone.
    pub fn only(flag: Flag) -> (r: Context)
        ensures
            forall|f: Flag| r.has(f) <==> f == flag,
    {
        Context::empty().and(flag, true)
    }

    /// Whether `flag` is set.
    pub fn contains(self, flag: Flag) -> (r: bool)
        ensures
            r == self.has(flag),
    {
        match flag {
            Flag::In => self.allow_in,
            Flag::Yield => self.allow_yield,
            Flag::Await => self.allow_await,
            Flag::Return => self.allow_return,
            Flag::Decorator => self.decorator,
            Flag::DisallowConditionalTypes => self.disallow_conditional_types,
            Flag::Ambient => self.ambient,
            Flag::StrictMode => self.strict_mode,
        }
    }

    pub fn has_in(self) -> (r: bool)
        ensures
            r == self.has(Flag::In),
    {
        self.contains(Flag::In)
    }

    pub fn has_yield(self) -> (r: bool)
        ensures
            r == self.has(Flag::Yield),
    {
        self.contains(Flag::Yield)
    }

    pub fn has_await(self) -> (r: bool)
        ensures
            r == self.has(Flag::Await),
    {
        self.contains(Flag::Await)
    }

    pub fn has_return(self) -> (r: bool)
        ensures
            r == self.has(Flag::Return),
    {
        self.contains(Flag::Return)
    }

    pub fn has_decorator(self) -> (r: bool)
        ensures
            r == self.has(Flag::Decorator),
    {
        self.contains(Flag::Decorator)
    }

    pub fn has_disallow_conditional_types(self) -> (r: bool)
        ensures
            r == self.has(Flag::DisallowConditionalTypes),
    {
        self.contains(Flag::DisallowConditionalTypes)
    }

    pub fn has_ambient(self) -> (r: bool)
        ensures
            r == self.has(Flag::Ambient),
    {
        self.contains(Flag::Ambient)
    }

    pub fn has_strict_mode(self) -> (r: bool)
        ensures
            r == self.has(Flag::StrictMode),
    {
        self.contains(Flag::StrictMode)
    }

    /// The flags of either context.
    pub fn union(self, other: Context) -> (r: Context)
        ensures
            r@ == self@.union(other@),
            forall|f: Flag| r.has(f) <==> (self.has(f) || other.has(f)),
    {
        let r = Context {
            allow_in: self.allow_in || other.allow_in,
            allow_yield: self.allow_yield || other.allow_yield,
            allow_await: self.allow_await || other.allow_await,
            allow_return: self.allow_return || other.allow_return,
            decorator: self.decorator || other.decorator,
            disallow_conditional_types: self.disallow_conditional_types
                || other.disallow_conditional_types,
            ambient: self.ambient || other.ambient,
            strict_mode: self.strict_mode || other.strict_mode,
        };
        assert(r@ =~= self@.union(other@));
        r
    }

    /// The flags of `self` that `other` does not hold.
    pub fn difference(self, other: Context) -> (r: Context)
        ensures
            r@ == self@.difference(other@),
            forall|f: Flag| r.has(f) <==> (self.has(f) && !other.has(f)),
    {
        let r = Context {
            allow_in: self.allow_in && !other.allow_in,
            allow_yield: self.allow_yield && !other.allow_yield,
            allow_await: self.allow_await && !other.allow_await,
            allow_return: self.allow_return && !other.allow_return,
            decorator: self.decorator && !other.decorator,
            disallow_conditional_types: self.disallow_conditional_types
                && !other.disallow_conditional_types,
            ambient: self.ambient && !other.ambient,
            strict_mode: self.strict_mode && !other.strict_mode,
        };
        assert(r@ =~= self@.difference(other@));
        r
    }

    /// Adds `flag` where `enabled` holds; otherwise the context is unchanged.
    pub fn union_if(self, flag: Flag, enabled: bool) -> (r: Context)
        ensures
            forall|f: Flag| r.has(f) <==> (self.has(f) || (enabled && f == flag)),
    {
        if enabled {
            self.and(flag, true)
        } else {
            self
        }
    }

    pub fn union_await_if(self, enabled: bool) -> (r: Context)
        ensures
            forall|f: Flag| r.has(f) <==> (self.has(f) || (enabled && f == Flag::Await)),
    {
        self.union_if(Flag::Await, enabled)
    }

    pub fn union_ambient_if(self, enabled: bool) -> (r: Context)
        ensures
            forall|f: Flag| r.has(f) <==> (self.has(f) || (enabled && f == Flag::Ambient)),
    {
        self.union_if(Flag::Ambient, enabled)
    }

    pub fn union_yield_if(self, enabled: bool) -> (r: Context)
        ensures
            forall|f: Flag| r.has(f) <==> (self.has(f) || (enabled && f == Flag::Yield)),
    {
        self.union_if(Flag::Yield, enabled)
    }

    /// Sets `flag` to `set`; every other flag is kept.
    pub fn and(self, flag: Flag, set: bool) -> (r: Context)
        ensures
            r.has(flag) == set,
            forall|f: Flag| f != flag ==> r.has(f) == self.has(f),
    {
        let mut r = self;
        match flag {
            Flag::In => r.allow_in = set,
            Flag::Yield => r.allow_yield = set,
            Flag::Await => r.allow_await = set,
            Flag::Return => r.allow_return = set,
            Flag::Decorator => r.decorator = set,
            Flag::DisallowConditionalTypes => r.disallow_conditional_types = set,
            Flag::Ambient => r.ambient = set,
            Flag::StrictMode => r.strict_mode = set,
        }
        r
    }

    pub fn and_in(self, enabled: bool) -> (r: Context)
        ensures
            r.has(Flag::In) == enabled,
            forall|f: Flag| f != Flag::In ==> r.has(f) == self.has(f),
    {
        self.and(Flag::In, enabled)
    }

    pub fn and_yield(self, enabled: bool) -> (r: Context)
        ensures
            r.has(Flag::Yield) == enabled,
            forall|f: Flag| f != Flag::Yield ==> r.has(f) == self.has(f),
    {
        self.and(Flag::Yield, enabled)
    }

    pub fn and_await(self, enabled: bool) -> (r: Context)
        ensures
            r.has(Flag::Await) == enabled,
            forall|f: Flag| f != Flag::Await ==> r.has(f) == self.has(f),
    {
        self.and(Flag::Await, enabled)
    }

    pub fn and_return(self, enabled: bool) -> (r: Context)
        ensures
            r.has(Flag::Return) == enabled,
            forall|f: Flag| f != Flag::Return ==> r.has(f) == self.has(f),
    {
        self.and(Flag::Return, enabled)
    }

    pub fn and_decorator(self, enabled: bool) -> (r: Context)
        ensures
            r.has(Flag::Decorator) == enabled,
            forall|f: Flag| f != Flag::Decorator ==> r.has(f) == self.has(f),
    {
        self.and(Flag::Decorator, enabled)
    }

    pub fn and_ambient(self, enabled: bool) -> (r: Context)
        ensures
            r.has(Flag::Ambient) == enabled,
            forall|f: Flag| f != Flag::Ambient ==> r.has(f) == self.has(f),
    {
        self.and(Flag::Ambient, enabled)
    }
}

impl Default for Context {
    /// `[In]` alone: the parameters at the start of a program.
    fn default() -> (r: Context)
        ensures
            forall|f: Flag| r.has(f) <==> f == Flag::In,
    {
        Context::only(Flag::In)
    }
}

/// Where a statement stands: in a list, or as the single body of a construct.
#[derive(Debug, Clone, Copy, PartialEq, Eq, Structural)]
pub enum StatementContext {
    StatementList,
    TopLevelStatementList,
    If,
    Label,
    Do,
    While,
    With,
    For,
}

impl StatementContext {
    /// A statement that is the body of `if`, a label, or a loop, not a member of a list.
    pub fn is_single_statement(self) -> (r: bool)
        ensures
            r <==> !(self == StatementContext::StatementList || self
                == StatementContext::TopLevelStatementList),
    {
        !matches!(self, StatementContext::StatementList | StatementContext::TopLevelStatementList)
    }

    pub fn is_top_level(self) -> (r: bool)
        ensures
            r <==> self == StatementContext::TopLevelStatementList,
    {
        self == StatementContext::TopLevelStatementList
    }
}

/// The delimited construct whose members are being parsed. Error recovery asks
/// of each one which tokens end it and which tokens can begin a member of it.
#[derive(Debug, Clone, Copy, PartialEq, Eq, Structural, Hash)]
pub enum ParsingContext {
    /// The program itself: the root of every stack, never popped.
    TopLevel,
    /// The statements of a block `{ ... }`.
    BlockStatements,
    /// The statements of a function body.
    FunctionBody,
    /// A formal parameter list.
    Parameters,
    /// The arguments of a call.
    ArgumentExpressions,
    /// A type annotation (`: Type`).
    TypeAnnotation,
    /// The members of an interface or type literal.
    TypeMembers,
    /// The members of a class body.
    ClassMembers,
    /// The members of an enum body.
    EnumMembers,
    /// The properties of an object literal.
    ObjectLiteralMembers,
    /// The elements of an array literal.
    ArrayLiteralMembers,
    /// The clauses of a `switch` body.
    SwitchClauses,
    /// The specifiers of an `import { ... }` list.
    ImportSpecifiers,
    /// The specifiers of an `export { ... }` list.
    ExportSpecifiers,
    /// A type parameter list `<...>` of a declaration.
    TypeParameters,
    /// A type argument list `<...>` of an application.
    TypeArguments,
    /// The attributes of a JSX element.
    JsxAttributes,
    /// The children of a JSX element.
    JsxChildren,
}

/// The stack of active parsing contexts, innermost last. `TopLevel` stands at
/// the bottom and is never removed.
#[derive(Debug)]
pub struct ParsingContextStack {
    contexts: Vec<ParsingContext>,
}

impl View for ParsingContextStack {
    type V = Seq<ParsingContext>;

    closed spec fn view(&self) -> Seq<ParsingContext> {
        self.contexts@
    }
}

impl ParsingContextStack {
    /// Never empty, with `TopLevel` at the bottom.
    pub open spec fn wf(&self) -> bool {
        &&& self@.len() >= 1
        &&& self@[0] == ParsingContext::TopLevel
    }

    /// A stack that holds `TopLevel` alone.
    pub fn new() -> (r: ParsingContextStack)
        ensures
            r@ == seq![ParsingContext::TopLevel],
            r.wf(),
    {
        ParsingContextStack { contexts: vec![ParsingContext::TopLevel] }
    }

    /// Opens `ctx` above the current context.
    pub fn push(&mut self, ctx: ParsingContext)
        requires
            old(self).wf(),
        ensures
            final(self)@ == old(self)@.push(ctx),
            final(self).wf(),
    {
        self.contexts.push(ctx);
    }

    /// Closes the current context and returns it; at `TopLevel` alone nothing
    /// is removed and `None` comes back.
    pub fn pop(&mut self) -> (r: Option<ParsingContext>)
        requires
            old(self).wf(),
        ensures
            final(self).wf(),
            popped(old(self)@, r, final(self)@),
    {
        if self.contexts.len() <= 1 {
            return None;
        }
        self.contexts.pop()
    }

    /// The innermost context.
    pub fn current(&self) -> (r: ParsingContext)
        requires
            self.wf(),
        ensures
            r == self@.last(),
    {
        self.contexts[self.contexts.len() - 1]
    }

    /// Whether `ctx` is active anywhere in the stack.
    pub fn is_in_context(&self, ctx: ParsingContext) -> (r: bool)
        ensures
            r == self@.contains(ctx),
    {
        let mut i: usize = 0;
        while i < self.contexts.len()
            invariant
                0 <= i <= self@.len(),
                forall|j: int| 0 <= j < i ==> self@[j] != ctx,
            decreases self@.len() - i,
        {
            if self.contexts[i] == ctx {
                return true;
            }
            i = i + 1;
        }
        false
    }

    /// The active contexts from the bottom (`TopLevel`) to the current one.
    pub fn active_contexts(&self) -> (r: &[ParsingContext])
        ensures
            r@ == self@,
    {
        self.contexts.as_slice()
    }

    /// The number of active contexts, `TopLevel` included.
    pub fn depth(&self) -> (r: usize)
        ensures
            r == self@.len(),
    {
        self.contexts.len()
    }
}

/// `after` is the stack `before` once `pop` returned `r`: the innermost
/// context comes off, unless `TopLevel` stands alone.
pub open spec fn popped(
    before: Seq<ParsingContext>,
    r: Option<ParsingContext>,
    after: Seq<ParsingContext>,
) -> bool {
    if before.len() <= 1 {
        r is None && after == before
    } else {
        r == Some(before.last()) && after == before.drop_last()
    }
}

/// A pop that follows a push takes off what the push put on and leaves the
/// stack as it was: constructs that open their context on entry and close it
/// on exit leave the stack to their callers unchanged, so that a parse
/// returns to `TopLevel` alone.
pub proof fn law_push_pop_balanced(
    s: ParsingContextStack,
    ctx: ParsingContext,
    pushed: Seq<ParsingContext>,
    r: Option<ParsingContext>,
    after: Seq<ParsingContext>,
)
    requires
        s.wf(),
        pushed == s@.push(ctx),
        popped(pushed, r, after),
    ensures
        r == Some(ctx),
        after == s@,
{
    assert(pushed.drop_last() =~= s@);
}

impl Clone for ParsingContextStack {
    fn clone(&self) -> (r: ParsingContextStack)
        ensures
            r@ == self@,
    {
        let mut contexts: Vec<ParsingContext> = Vec::new();
        let mut i: usize = 0;
        while i < self.contexts.len()
            invariant
                0 <= i <= self@.len(),
                contexts@ == self@.take(i as int),
            decreases self@.len() - i,
        {
            contexts.push(self.contexts[i]);
            i = i + 1;
            assert(contexts@ =~= self@.take(i as int));
        }
        assert(contexts@ =~= self@);
        ParsingContextStack { contexts }
    }
}

impl Default for ParsingContextStack {
    fn default() -> (r: ParsingContextStack)
        ensures
            r@ == seq![ParsingContext::TopLevel],
            r.wf(),
    {
        ParsingContextStack::new()
    }
}

} // verus!
