//! Directives: what a module tells nginx about each one, and the bridge from
//! nginx's untyped callback to the module's typed handler.
//!
//! nginx learns of a directive through one table entry: its name, a bitmask
//! that says how many arguments it takes and in which blocks it may stand, the
//! callback to run, and which of the three configuration values the callback
//! is to receive.
use vstd::prelude::*;

use crate::base::{conf_status, conf_status_of, Array, NGX_CONF_ERROR};

verus! {

/// The directive takes no arguments.
pub const NGX_CONF_NOARGS: u32 = 0x0000_0001;

/// The directive takes exactly one argument.
pub const NGX_CONF_TAKE1: u32 = 0x0000_0002;

/// The directive takes exactly two arguments.
pub const NGX_CONF_TAKE2: u32 = 0x0000_0004;

/// The directive takes exactly three arguments.
pub const NGX_CONF_TAKE3: u32 = 0x0000_0008;

/// The directive takes exactly four arguments.
pub const NGX_CONF_TAKE4: u32 = 0x0000_0010;

/// The directive takes exactly five arguments.
pub const NGX_CONF_TAKE5: u32 = 0x0000_0020;

/// The directive takes exactly six arguments.
pub const NGX_CONF_TAKE6: u32 = 0x0000_0040;

/// The directive takes exactly seven arguments.
pub const NGX_CONF_TAKE7: u32 = 0x0000_0080;

/// The directive takes one or two arguments.
pub const NGX_CONF_TAKE12: u32 = 0x0000_0006;

/// The directive takes one or three arguments.
pub const NGX_CONF_TAKE13: u32 = 0x0000_000a;

/// The directive takes two or three arguments.
pub const NGX_CONF_TAKE23: u32 = 0x0000_000c;

/// The directive takes one, two or three arguments.
pub const NGX_CONF_TAKE123: u32 = 0x0000_000e;

/// The directive takes one, two, three or four arguments.
pub const NGX_CONF_TAKE1234: u32 = 0x0000_001e;

/// The directive takes a single `on` or `off`.
pub const NGX_CONF_FLAG: u32 = 0x0000_0200;

/// The directive takes one argument or more.
pub const NGX_CONF_1MORE: u32 = 0x0000_0800;

/// The directive takes two arguments or more.
pub const NGX_CONF_2MORE: u32 = 0x0000_1000;

/// The directive may stand at the top level of the configuration.
pub const NGX_MAIN_CONF: u32 = 0x0100_0000;

/// The directive may stand in the `http` block.
pub const NGX_HTTP_MAIN_CONF: u32 = 0x0200_0000;

/// The directive may stand in a `server` block.
pub const NGX_HTTP_SRV_CONF: u32 = 0x0400_0000;

/// The directive may stand in a `location` block.
pub const NGX_HTTP_LOC_CONF: u32 = 0x0800_0000;

/// The directive may stand in an `upstream` block.
pub const NGX_HTTP_UPS_CONF: u32 = 0x1000_0000;

/// The directive may stand in an `if` block of a `server` block.
pub const NGX_HTTP_SIF_CONF: u32 = 0x2000_0000;

/// The directive may stand in an `if` block of a `location` block.
pub const NGX_HTTP_LIF_CONF: u32 = 0x4000_0000;

/// The directive may stand in a `limit_except` block.
pub const NGX_HTTP_LMT_CONF: u32 = 0x8000_0000;

/// The bits of a directive's mask that speak of its arguments.
pub const ARGUMENT_BITS: u32 = 0x00ff_ffff;

/// The bits of a directive's mask that speak of the blocks it may stand in.
pub const NGX_ANY_CONF: u32 = 0xff00_0000;

/// Which of a module's three configuration values a directive's callback
/// receives.
#[derive(Debug, Clone, Copy, PartialEq, Eq, Structural)]
pub enum ConfOffset {
    /// The value of the `http` block.
    Main,
    /// The value of the enclosing `server` block.
    Srv,
    /// The value of the enclosing `location` block.
    Loc,
}

impl ConfOffset {
    /// Where the table of this tier starts within nginx's record of the three
    /// tables. The record is three pointers, main, server and location, one
    /// after the other.
    pub open spec fn conf_offset(self) -> nat {
        match self {
            ConfOffset::Main => 0,
            ConfOffset::Srv => vstd::layout::size_of::<usize>(),
            ConfOffset::Loc => 2 * vstd::layout::size_of::<usize>(),
        }
    }

    /// The offset nginx wants in the directive's table entry.
    pub fn into_conf_offset(&self) -> (offset: usize)
        ensures
            offset == self.conf_offset(),
    {
        broadcast use vstd::layout::layout_of_primitives;

        let word: usize = core::mem::size_of::<usize>();
        match self {
            ConfOffset::Main => 0,
            ConfOffset::Srv => word,
            ConfOffset::Loc => 2 * word,
        }
    }
}

/// A block of the configuration in which a directive may stand.
#[derive(Debug, Clone, Copy, PartialEq, Eq, Structural)]
pub enum CommandContext {
    /// The top level of the configuration.
    Main,
    /// The `http` block.
    Http,
    /// A `server` block within the `http` block.
    Srv,
    /// A `location` block within the `http` block.
    Loc,
    /// An `upstream` block within the `http` block.
    Ups,
    /// An `if` block within a `server` block.
    ServerIf,
    /// An `if` block within a `location` block.
    LocationIf,
    /// A `limit_except` block.
    LimitExcept,
}

impl CommandContext {
    /// The one bit by which a directive's mask admits this block.
    pub open spec fn cmd_ty(self) -> u32 {
        match self {
            CommandContext::Main => NGX_MAIN_CONF,
            CommandContext::Http => NGX_HTTP_MAIN_CONF,
            CommandContext::Srv => NGX_HTTP_SRV_CONF,
            CommandContext::Loc => NGX_HTTP_LOC_CONF,
            CommandContext::Ups => NGX_HTTP_UPS_CONF,
            CommandContext::ServerIf => NGX_HTTP_SIF_CONF,
            CommandContext::LocationIf => NGX_HTTP_LIF_CONF,
            CommandContext::LimitExcept => NGX_HTTP_LMT_CONF,
        }
    }

    /// The bit of this block, for a directive's mask.
    pub fn into_cmd_ty(&self) -> (ty: u32)
        ensures
            ty == self.cmd_ty(),
    {
        match self {
            CommandContext::Main => NGX_MAIN_CONF,
            CommandContext::Http => NGX_HTTP_MAIN_CONF,
            CommandContext::Srv => NGX_HTTP_SRV_CONF,
            CommandContext::Loc => NGX_HTTP_LOC_CONF,
            CommandContext::Ups => NGX_HTTP_UPS_CONF,
            CommandContext::ServerIf => NGX_HTTP_SIF_CONF,
            CommandContext::LocationIf => NGX_HTTP_LIF_CONF,
            CommandContext::LimitExcept => NGX_HTTP_LMT_CONF,
        }
    }
}

/// How many arguments a directive takes.
#[allow(missing_docs)]
#[derive(Debug, Clone, Copy, PartialEq, Eq, Structural)]
pub enum ArgCount {
    OneOrMore,
    TwoOrMore,
    One,
    Two,
    Three,
    Four,
    Five,
    Six,
    Seven,
    OneOrTwo,
    OneOrThree,
    TwoOrThree,
    OneOrTwoOrThree,
    OneOrThreeOrTwoOrFour,
}

impl ArgCount {
    /// Whether a directive of this kind may be written with `n` arguments.
    pub open spec fn admits(self, n: nat) -> bool {
        match self {
            ArgCount::OneOrMore => n >= 1,
            ArgCount::TwoOrMore => n >= 2,
            ArgCount::One => n == 1,
            ArgCount::Two => n == 2,
            ArgCount::Three => n == 3,
            ArgCount::Four => n == 4,
            ArgCount::Five => n == 5,
            ArgCount::Six => n == 6,
            ArgCount::Seven => n == 7,
            ArgCount::OneOrTwo => n == 1 || n == 2,
            ArgCount::OneOrThree => n == 1 || n == 3,
            ArgCount::TwoOrThree => n == 2 || n == 3,
            ArgCount::OneOrTwoOrThree => 1 <= n <= 3,
            ArgCount::OneOrThreeOrTwoOrFour => 1 <= n <= 4,
        }
    }
}

/// What a directive takes as arguments.
#[derive(Debug, Clone, Copy, PartialEq, Eq, Structural)]
pub enum ArgType {
    /// No arguments.
    NoArgs,
    /// Only `on` or `off`.
    Flag,
    /// A given number of arguments.
    Count(ArgCount),
}

impl ArgType {
    /// The bits by which a directive's mask says what it takes.
    pub open spec fn cmd_ty(self) -> u32 {
        match self {
            ArgType::NoArgs => NGX_CONF_NOARGS,
            ArgType::Flag => NGX_CONF_FLAG,
            ArgType::Count(count) => match count {
                ArgCount::OneOrMore => NGX_CONF_1MORE,
                ArgCount::TwoOrMore => NGX_CONF_2MORE,
                ArgCount::One => NGX_CONF_TAKE1,
                ArgCount::Two => NGX_CONF_TAKE2,
                ArgCount::Three => NGX_CONF_TAKE3,
                ArgCount::Four => NGX_CONF_TAKE4,
                ArgCount::Five => NGX_CONF_TAKE5,
                ArgCount::Six => NGX_CONF_TAKE6,
                ArgCount::Seven => NGX_CONF_TAKE7,
                ArgCount::OneOrTwo => NGX_CONF_TAKE12,
                ArgCount::OneOrThree => NGX_CONF_TAKE13,
                ArgCount::TwoOrThree => NGX_CONF_TAKE23,
                ArgCount::OneOrTwoOrThree => NGX_CONF_TAKE123,
                ArgCount::OneOrThreeOrTwoOrFour => NGX_CONF_TAKE1234,
            },
        }
    }

    /// Whether a directive of this kind may be written with `n` arguments.
    pub open spec fn admits(self, n: nat) -> bool {
        match self {
            ArgType::NoArgs => n == 0,
            ArgType::Flag => n == 1,
            ArgType::Count(count) => count.admits(n),
        }
    }

    /// The argument bits for a directive's mask.
    pub fn into_cmd_ty(&self) -> (ty: u32)
        ensures
            ty == self.cmd_ty(),
    {
        match self {
            ArgType::NoArgs => NGX_CONF_NOARGS,
            ArgType::Flag => NGX_CONF_FLAG,
            ArgType::Count(arg_count) => match arg_count {
                ArgCount::OneOrMore => NGX_CONF_1MORE,
                ArgCount::TwoOrMore => NGX_CONF_2MORE,
                ArgCount::One => NGX_CONF_TAKE1,
                ArgCount::Two => NGX_CONF_TAKE2,
                ArgCount::Three => NGX_CONF_TAKE3,
                ArgCount::Four => NGX_CONF_TAKE4,
                ArgCount::Five => NGX_CONF_TAKE5,
                ArgCount::Six => NGX_CONF_TAKE6,
                ArgCount::Seven => NGX_CONF_TAKE7,
                ArgCount::OneOrTwo => NGX_CONF_TAKE12,
                ArgCount::OneOrThree => NGX_CONF_TAKE13,
                ArgCount::TwoOrThree => NGX_CONF_TAKE23,
                ArgCount::OneOrTwoOrThree => NGX_CONF_TAKE123,
                ArgCount::OneOrThreeOrTwoOrFour => NGX_CONF_TAKE1234,
            },
        }
    }
}

/// How nginx reads the argument bits of a mask: whether a directive that
/// registered `mask` may be written with `n` arguments. The flag bit comes
/// first and asks for exactly one; then the two "or more" bits, each a lower
/// bound; otherwise the mask must hold the bit that stands for exactly `n`,
/// and there is none for more than seven. (nginx also knows a bit that admits
/// any number; no kind here sets it.)
pub open spec fn mask_admits(mask: u32, n: nat) -> bool {
    if mask & NGX_CONF_FLAG != 0 {
        n == 1
    } else if mask & NGX_CONF_1MORE != 0 {
        n >= 1
    } else if mask & NGX_CONF_2MORE != 0 {
        n >= 2
    } else {
        ||| mask & NGX_CONF_NOARGS != 0 && n == 0
        ||| mask & NGX_CONF_TAKE1 != 0 && n == 1
        ||| mask & NGX_CONF_TAKE2 != 0 && n == 2
        ||| mask & NGX_CONF_TAKE3 != 0 && n == 3
        ||| mask & NGX_CONF_TAKE4 != 0 && n == 4
        ||| mask & NGX_CONF_TAKE5 != 0 && n == 5
        ||| mask & NGX_CONF_TAKE6 != 0 && n == 6
        ||| mask & NGX_CONF_TAKE7 != 0 && n == 7
    }
}

/// The bits of every block in `contexts`, combined.
pub open spec fn contexts_mask(contexts: Seq<CommandContext>) -> u32
    decreases contexts.len(),
{
    if contexts.len() == 0 {
        0
    } else {
        contexts_mask(contexts.drop_last()) | contexts.last().cmd_ty()
    }
}

/// The argument bits of a mask are those of the kind it was made from, and
/// they admit exactly the argument counts that the kind stands for.
pub proof fn lemma_arg_bits_mean_kind(ty: ArgType, n: nat)
    ensures
        ty.cmd_ty() & NGX_ANY_CONF == 0,
        mask_admits(ty.cmd_ty(), n) <==> ty.admits(n),
{
    let m = ty.cmd_ty();
    assert(is_arg_mask(m));
    assert({
        &&& m & 0xff00_0000 == 0
        &&& (m & 0x200 != 0 <==> m == 0x200)
        &&& (m & 0x800 != 0 <==> m == 0x800)
        &&& (m & 0x1000 != 0 <==> m == 0x1000)
        &&& (m & 0x1 != 0 <==> m == 0x1)
        &&& (m & 0x2 != 0 <==> (m == 0x2 || m == 0x6 || m == 0xa || m == 0xe || m == 0x1e))
        &&& (m & 0x4 != 0 <==> (m == 0x4 || m == 0x6 || m == 0xc || m == 0xe || m == 0x1e))
        &&& (m & 0x8 != 0 <==> (m == 0x8 || m == 0xa || m == 0xc || m == 0xe || m == 0x1e))
        &&& (m & 0x10 != 0 <==> (m == 0x10 || m == 0x1e))
        &&& (m & 0x20 != 0 <==> m == 0x20)
        &&& (m & 0x40 != 0 <==> m == 0x40)
        &&& (m & 0x80 != 0 <==> m == 0x80)
    }) by (bit_vector)
        requires
            is_arg_mask(m),
    ;
}

/// Whether `mask` is one of the sixteen argument masks that a kind stands
/// for.
pub open spec fn is_arg_mask(mask: u32) -> bool {
    ||| mask == 0x1 || mask == 0x2 || mask == 0x4 || mask == 0x8
    ||| mask == 0x10 || mask == 0x20 || mask == 0x40 || mask == 0x80
    ||| mask == 0x6 || mask == 0xa || mask == 0xc || mask == 0xe || mask == 0x1e
    ||| mask == 0x200 || mask == 0x800 || mask == 0x1000
}

/// The combined bits of a list of blocks lie among the scope bits, and hold
/// the bit of a block exactly if the block is in the list.
pub proof fn lemma_contexts_mask_holds_listed(contexts: Seq<CommandContext>, context: CommandContext)
    ensures
        contexts_mask(contexts) & ARGUMENT_BITS == 0,
        contexts_mask(contexts) & context.cmd_ty() != 0 <==> contexts.contains(context),
    decreases contexts.len(),
{
    if contexts.len() == 0 {
        assert(0u32 & 0x00ff_ffff == 0 && forall|c: u32| 0u32 & c == 0) by (bit_vector);
    } else {
        let rest = contexts.drop_last();
        let last = contexts.last();
        lemma_contexts_mask_holds_listed(rest, context);
        let m = contexts_mask(rest);
        let l = last.cmd_ty();
        let c = context.cmd_ty();
        lemma_scope_bit(last);
        lemma_scope_bit(context);
        assert((m | l) & 0x00ff_ffff == 0 && ((m | l) & c != 0 <==> (m & c != 0 || l == c)))
            by (bit_vector)
            requires
                m & 0x00ff_ffff == 0,
                is_scope_bit(l),
                is_scope_bit(c),
        ;
        assert(contexts.contains(context) <==> (rest.contains(context) || last == context)) by {
            if rest.contains(context) {
                let i = choose|i: int| 0 <= i < rest.len() && rest[i] == context;
                assert(contexts[i] == context);
            }
            if last == context {
                assert(contexts[contexts.len() - 1] == context);
            }
            if contexts.contains(context) {
                let i = choose|i: int| 0 <= i < contexts.len() && contexts[i] == context;
                if i < contexts.len() - 1 {
                    assert(rest[i] == context);
                }
            }
        }
    }
}

/// Whether `bit` is one of the eight bits that stand for a block.
pub open spec fn is_scope_bit(bit: u32) -> bool {
    bit == 0x0100_0000 || bit == 0x0200_0000 || bit == 0x0400_0000 || bit == 0x0800_0000 || bit
        == 0x1000_0000 || bit == 0x2000_0000 || bit == 0x4000_0000 || bit == 0x8000_0000
}

/// Each block has a scope bit of its own.
pub proof fn lemma_scope_bit(context: CommandContext)
    ensures
        is_scope_bit(context.cmd_ty()),
        forall|other: CommandContext| other.cmd_ty() == context.cmd_ty() ==> other == context,
{
}

/// A name as nginx keeps it: the bytes and how many there are.
#[derive(Debug, Clone, Copy, PartialEq, Eq)]
pub struct NgxStr {
    /// How many bytes the name has.
    pub len: usize,
    /// The bytes, which live as long as the process.
    pub data: &'static [u8],
}

/// One entry of the table through which nginx learns of a module's
/// directives. `C` is the type of the raw callback.
#[derive(Debug, PartialEq, Eq)]
pub struct NgxCommand<C> {
    /// The directive's name.
    pub name: NgxStr,
    /// The mask: argument bits and scope bits.
    pub type_: usize,
    /// The callback nginx runs when it meets the directive.
    pub set: Option<C>,
    /// Which tier's table the callback's value comes from.
    pub conf: usize,
    /// Where in that value a field lies. The framework finds values through
    /// the module's identity, never through an offset, so this is zero.
    pub offset: usize,
    /// An address passed through to the callback, null if there is none.
    pub post: usize,
}

impl<C> NgxCommand<C> {
    /// Whether this is the entry that ends a table: no name, no bits, no
    /// callback.
    pub open spec fn is_null(&self) -> bool {
        &&& self.name.len == 0
        &&& self.name.data@.len() == 0
        &&& self.type_ == 0
        &&& self.set is None
        &&& self.conf == 0
        &&& self.offset == 0
        &&& self.post == 0
    }

    /// The entry that ends a table.
    pub fn empty() -> (entry: Self)
        ensures
            entry.is_null(),
    {
        let nothing: &'static [u8] = &[];
        NgxCommand { name: NgxStr { len: 0, data: nothing }, type_: 0, set: None, conf: 0, offset: 0, post: 0 }
    }
}

/// The table nginx scans for a module's directives: the entries in the order
/// given, and after them the entry that ends the scan.
pub fn command_table<C>(commands: Vec<NgxCommand<C>>) -> (table: Vec<NgxCommand<C>>)
    ensures
        table@.len() == commands@.len() + 1,
        table@.take(commands@.len() as int) == commands@,
        table@.last().is_null(),
{
    let mut table = commands;
    table.push(NgxCommand::empty());
    assert(table@.take(commands@.len() as int) =~= commands@);
    table
}

/// What a [`Command`] holds, in terms a contract can speak of.
pub struct CommandView<S> {
    /// The directive's name.
    pub name: Seq<u8>,
    /// The address to pass through to the callback, if one was given.
    pub post: Option<usize>,
    /// The typed handler.
    pub set: S,
    /// The mask: argument bits and scope bits.
    pub ty: u32,
    /// Where in the value a field lies; always zero.
    pub offset: usize,
}

/// A directive as a module declares it: its name, what it takes, where it may
/// stand, and the typed handler `S` that applies it to a configuration value.
pub struct Command<S> {
    name: &'static [u8],
    post: Option<usize>,
    // nginx calls the callback of every entry it matches, so there is always one.
    set: S,
    ty: u32,
    offset: usize,
}

impl<S> View for Command<S> {
    type V = CommandView<S>;

    closed spec fn view(&self) -> CommandView<S> {
        CommandView { name: self.name@, post: self.post, set: self.set, ty: self.ty, offset: self.offset }
    }
}

impl<S> Command<S> {
    /// A directive that takes the given number of arguments.
    pub fn new_count(name: &'static [u8], ty: ArgCount, allowed_contexts: &[CommandContext], set: S) -> (command: Self)
        requires
            allowed_contexts@.len() > 0,
        ensures
            command@ == (CommandView {
                name: name@,
                post: None,
                set,
                ty: ArgType::Count(ty).cmd_ty() | contexts_mask(allowed_contexts@),
                offset: 0,
            }),
    {
        Self::new(name, ArgType::Count(ty), allowed_contexts, set)
    }

    /// A directive that takes `ty` and may stand in each of
    /// `allowed_contexts`, of which there must be one at least. Its mask is
    /// the argument bits of `ty` together with the bit of every block listed.
    pub fn new(name: &'static [u8], ty: ArgType, allowed_contexts: &[CommandContext], set: S) -> (command: Self)
        requires
            allowed_contexts@.len() > 0,
        ensures
            command@ == (CommandView {
                name: name@,
                post: None,
                set,
                ty: ty.cmd_ty() | contexts_mask(allowed_contexts@),
                offset: 0,
            }),
    {
        let args: u32 = ty.into_cmd_ty();
        let mut mask: u32 = args;
        let mut idx: usize = 0;
        assert(allowed_contexts@.take(0) =~= Seq::<CommandContext>::empty());
        assert(args == args | 0) by (bit_vector);
        while idx < allowed_contexts.len()
            invariant
                idx <= allowed_contexts@.len(),
                mask == args | contexts_mask(allowed_contexts@.take(idx as int)),
            decreases allowed_contexts@.len() - idx,
        {
            let bit: u32 = allowed_contexts[idx].into_cmd_ty();
            proof {
                let seen = allowed_contexts@.take(idx as int);
                let next = allowed_contexts@.take(idx + 1);
                assert(next.drop_last() =~= seen);
                assert(next.last() == allowed_contexts@[idx as int]);
                let m = contexts_mask(seen);
                assert((args | m) | bit == args | (m | bit)) by (bit_vector);
            }
            mask = mask | bit;
            idx += 1;
        }
        assert(allowed_contexts@.take(idx as int) =~= allowed_contexts@);
        Command { name, post: None, set, ty: mask, offset: 0 }
    }

    /// The same directive with `post` as the address passed through to the
    /// callback.
    pub fn post(self, post: usize) -> (command: Self)
        ensures
            command@ == (CommandView { post: Some(post), ..self@ }),
    {
        let Command { name, post: _, set, ty, offset } = self;
        Command { name, post: Some(post), set, ty, offset }
    }

    /// The table entry for this directive. `set` is the raw callback, which
    /// should do no more than wrap [`Command::set`]; `conf` says which tier's
    /// value it receives.
    pub fn build<C>(&self, conf: ConfOffset, set: C) -> (entry: NgxCommand<C>)
        ensures
            entry.name.len == self@.name.len(),
            entry.name.data@ == self@.name,
            entry.type_ == self@.ty,
            entry.set == Some(set),
            entry.conf == conf.conf_offset(),
            entry.offset == self@.offset,
            entry.post == (match self@.post {
                Some(post) => post,
                None => 0usize,
            }),
    {
        let name = NgxStr { len: self.name.len(), data: self.name };
        let post: usize = if let Some(post) = self.post {
            post
        } else {
            0
        };
        NgxCommand {
            name,
            type_: self.ty as usize,
            set: Some(set),
            conf: conf.into_conf_offset(),
            offset: self.offset,
            post,
        }
    }

    /// The typed handler of this directive.
    pub fn set(&self) -> (set: &S)
        ensures
            *set == self@.set,
    {
        &self.set
    }
}

/// A directive's mask admits exactly the argument counts of the kind it was
/// declared with, and exactly the blocks it was declared for.
pub proof fn lemma_mask_means_declaration(ty: ArgType, contexts: Seq<CommandContext>, n: nat, context: CommandContext)
    ensures
        mask_admits(ty.cmd_ty() | contexts_mask(contexts), n) <==> ty.admits(n),
        (ty.cmd_ty() | contexts_mask(contexts)) & context.cmd_ty() != 0 <==> contexts.contains(context),
        (ty.cmd_ty() | contexts_mask(contexts)) & ARGUMENT_BITS == ty.cmd_ty(),
        (ty.cmd_ty() | contexts_mask(contexts)) & NGX_ANY_CONF == contexts_mask(contexts),
{
    lemma_arg_bits_mean_kind(ty, n);
    lemma_contexts_mask_holds_listed(contexts, context);
    lemma_scope_bit(context);
    let a = ty.cmd_ty();
    let m = contexts_mask(contexts);
    let c = context.cmd_ty();
    assert({
        &&& (a | m) & 0x00ff_ffff == a
        &&& (a | m) & 0xff00_0000 == m
        &&& ((a | m) & c != 0 <==> m & c != 0)
        &&& (a | m) & 0x200 == a & 0x200
        &&& (a | m) & 0x800 == a & 0x800
        &&& (a | m) & 0x1000 == a & 0x1000
        &&& (a | m) & 0x1 == a & 0x1
        &&& (a | m) & 0x2 == a & 0x2
        &&& (a | m) & 0x4 == a & 0x4
        &&& (a | m) & 0x8 == a & 0x8
        &&& (a | m) & 0x10 == a & 0x10
        &&& (a | m) & 0x20 == a & 0x20
        &&& (a | m) & 0x40 == a & 0x40
        &&& (a | m) & 0x80 == a & 0x80
    }) by (bit_vector)
        requires
            a & 0xff00_0000 == 0,
            m & 0x00ff_ffff == 0,
            is_scope_bit(c),
    ;
}

/// Runs a directive's typed handler for nginx's untyped callback.
///
/// `conf` is the configuration value nginx pointed at, nothing if the pointer
/// was null; `args` is the array of what nginx parsed, nothing if there was
/// none. The first element of that array is the directive's own name, so the
/// handler is given the array without it. Where the value or the array is
/// missing, or the array lacks even the name, the handler is not run and the
/// answer is the error sentinel. Otherwise the answer is the sentinel for what
/// the handler returned: see [`conf_status`](crate::base::conf_status).
pub fn dispatch<T, S>(set: &S, conf: Option<&mut T>, args: Option<Array<Vec<u8>>>) -> (status: usize) where
    S: Fn(&mut T, Array<Vec<u8>>) -> Result<(), ()>,

    requires
        forall|value: &mut T, rest: Array<Vec<u8>>|
            args matches Some(all) && all@.len() > 0 && rest@ == all@.skip(1) && rest.header()
                == all.header() ==> call_requires(*set, (value, rest)),
    ensures
        conf is None || args is None || args->0@.len() == 0 ==> status == NGX_CONF_ERROR,
        status == conf_status_of(true) || status == conf_status_of(false),
        conf matches Some(value) ==> (args matches Some(all) ==> (all@.len() > 0 ==> exists|
            handed: &mut T,
            rest: Array<Vec<u8>>,
            outcome: Result<(), ()>,
        |
            #![trigger call_ensures(*set, (handed, rest), outcome)]
            {
                &&& *handed == *value
                &&& *final(handed) == *final(value)
                &&& rest@ == all@.skip(1)
                &&& rest.header() == all.header()
                &&& call_ensures(*set, (handed, rest), outcome)
                &&& status == conf_status_of(outcome is Ok)
            })),
{
    let value = match conf {
        Some(value) => value,
        None => return NGX_CONF_ERROR,
    };
    let all = match args {
        Some(all) => all,
        None => return NGX_CONF_ERROR,
    };
    let rest = match all.skip_first() {
        Some(rest) => rest,
        None => return NGX_CONF_ERROR,
    };
    let outcome = set(value, rest);
    conf_status(&outcome)
}

} // verus!
