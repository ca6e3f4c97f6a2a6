//! How a configuration value inherits from the tier around it.
//!
//! A value is made with nothing set, directives set some of its fields, and
//! then the value of the enclosing tier is merged into it: first that of the
//! `http` block into each `server` block, then that of each `server` block
//! into its `location` blocks. The rule is the same for every field: what a
//! directive has set in the inner block stays, and what none has set there is
//! taken from the outer one. A text is unset while it is empty; a switch has a
//! state of its own for it.
use vstd::prelude::*;

use crate::base::Array;
use crate::http::module::{Merge, MergeConfigError};

verus! {

/// A switch that a directive turns `on` or `off`, and that knows whether one
/// has.
#[derive(Debug, Clone, Copy, PartialEq, Eq, Structural)]
pub enum Flag {
    /// No directive has set the switch in this block.
    Unset,
    /// A directive has turned the switch off.
    Off,
    /// A directive has turned the switch on.
    On,
}

impl Default for Flag {
    fn default() -> (flag: Flag)
        ensures
            flag == Flag::Unset,
    {
        Flag::Unset
    }
}

/// Whether `token` spells `on`, in capitals or small letters.
pub open spec fn spells_on(token: Seq<u8>) -> bool {
    &&& token.len() == 2
    &&& (token[0] == 0x6f || token[0] == 0x4f)
    &&& (token[1] == 0x6e || token[1] == 0x4e)
}

/// Whether `token` spells `off`, in capitals or small letters.
pub open spec fn spells_off(token: Seq<u8>) -> bool {
    &&& token.len() == 3
    &&& (token[0] == 0x6f || token[0] == 0x4f)
    &&& (token[1] == 0x66 || token[1] == 0x46)
    &&& (token[2] == 0x66 || token[2] == 0x46)
}

/// The text that a field ends with when `parent` is merged into `child`: its
/// own if it has one, else the parent's.
pub open spec fn inherited(child: Seq<char>, parent: Seq<char>) -> Seq<char> {
    if child.len() > 0 {
        child
    } else {
        parent
    }
}

impl Flag {
    /// What `token` sets a switch to: on for `on`, off for `off`, and no
    /// other token sets it to anything.
    pub open spec fn parsed(token: Seq<u8>) -> Result<Flag, ()> {
        if spells_on(token) {
            Ok(Flag::On)
        } else if spells_off(token) {
            Ok(Flag::Off)
        } else {
            Err(())
        }
    }

    /// The state of the switch after that of the enclosing tier, `prev`, has
    /// been merged into it: what a directive has set stays, and a switch that
    /// none has set takes the state of the enclosing tier.
    pub open spec fn merged(self, prev: Flag) -> Flag {
        match self {
            Flag::Unset => prev,
            _ => self,
        }
    }

    /// Whether a directive has set the switch.
    pub open spec fn spec_is_set(&self) -> bool {
        *self != Flag::Unset
    }

    /// Whether the switch is on.
    pub open spec fn spec_enabled(&self) -> bool {
        *self == Flag::On
    }

    /// Whether a directive has set the switch.
    #[verifier::when_used_as_spec(spec_is_set)]
    pub fn is_set(&self) -> (set: bool)
        ensures
            set == self.spec_is_set(),
    {
        match self {
            Flag::Unset => false,
            _ => true,
        }
    }

    /// Whether the switch is on. A switch that nothing has set is not.
    #[verifier::when_used_as_spec(spec_enabled)]
    pub fn enabled(&self) -> (on: bool)
        ensures
            on == self.spec_enabled(),
    {
        match self {
            Flag::On => true,
            _ => false,
        }
    }

    /// Reads the argument of a directive that takes `on` or `off`. Capitals
    /// and small letters are the same; any other token is an error.
    pub fn parse(token: &[u8]) -> (res: Result<Flag, ()>)
        ensures
            res == Flag::parsed(token@),
    {
        if token.len() == 2 {
            if (token[0] == 0x6f || token[0] == 0x4f) && (token[1] == 0x6e || token[1] == 0x4e) {
                return Ok(Flag::On);
            }
        } else if token.len() == 3 {
            if (token[0] == 0x6f || token[0] == 0x4f) && (token[1] == 0x66 || token[1] == 0x46) && (token[2] == 0x66
                || token[2] == 0x46) {
                return Ok(Flag::Off);
            }
        }
        Err(())
    }

    /// The handler of a directive that takes `on` or `off`: sets the switch
    /// to what the one argument says. With any other token, or with more or
    /// fewer arguments than one, the switch stays as it is and the directive
    /// is refused.
    pub fn set(&mut self, args: Array<Vec<u8>>) -> (res: Result<(), ()>)
        ensures
            args@.len() == 1 && Flag::parsed(args@[0]@) is Ok ==> res is Ok && Ok::<Flag, ()>(*final(self))
                == Flag::parsed(args@[0]@),
            args@.len() != 1 || Flag::parsed(args@[0]@) is Err ==> res is Err && *final(self) == *old(self),
    {
        if args.len() != 1 {
            return Err(());
        }
        let token = match args.get(0) {
            Some(token) => token,
            None => return Err(()),
        };
        match Flag::parse(token.as_slice()) {
            Ok(flag) => {
                *self = flag;
                Ok(())
            },
            Err(_) => Err(()),
        }
    }
}

impl Merge for Flag {
    /// Always succeeds, and leaves the switch as [`Flag::merged`] says.
    fn merge(&mut self, prev: &Self) -> (res: Result<(), MergeConfigError>)
        ensures
            res is Ok,
            *final(self) == old(self).merged(*prev),
    {
        if !self.is_set() {
            *self = *prev;
        }
        Ok(())
    }
}

/// Merges a text that a module can do without: if no directive has set it
/// here, it becomes that of the enclosing tier, `prev`, and if that has none
/// either, the module's `default`.
pub fn merge_optional(value: &mut String, prev: &String, default: &str)
    ensures
        final(value)@ == inherited(inherited(old(value)@, prev@), default@),
{
    if value.as_str().is_empty() {
        if !prev.as_str().is_empty() {
            *value = prev.clone();
        } else {
            *value = default.to_owned();
        }
    }
}

/// Whether a text that a module needs is there: it is not only if the
/// feature is enabled and the text is empty.
pub open spec fn required_verdict(enabled: bool, value: Seq<char>) -> Result<(), MergeConfigError> {
    if enabled && value.len() == 0 {
        Err(MergeConfigError::NoValue)
    } else {
        Ok(())
    }
}

/// Merges a text that a module needs whenever its feature is enabled: if no
/// directive has set it here, it becomes that of the enclosing tier, `prev`.
/// If the feature is enabled for this block and the text is still empty, the
/// merge fails.
pub fn merge_required(value: &mut String, prev: &String, enabled: bool) -> (res: Result<(), MergeConfigError>)
    ensures
        final(value)@ == inherited(old(value)@, prev@),
        res == required_verdict(enabled, final(value)@),
{
    if value.as_str().is_empty() {
        *value = prev.clone();
    }
    if enabled && value.as_str().is_empty() {
        return Err(MergeConfigError::NoValue);
    }
    Ok(())
}

/// Merging with a tier in which nothing is set changes no field that is set,
/// and doing it again changes nothing at all.
pub proof fn lemma_merge_with_unset_parent(flag: Flag, value: Seq<char>, default: Seq<char>)
    ensures
        flag.merged(Flag::Unset) == flag,
        inherited(value, Seq::empty()) == value,
        value.len() > 0 ==> inherited(inherited(value, Seq::empty()), default) == value,
        ({
            let once = inherited(inherited(value, Seq::empty()), default);
            inherited(inherited(once, Seq::empty()), default) == once
        }),
{
}

/// Whatever a directive has set is still there after a merge, whatever the
/// enclosing tier holds.
pub proof fn lemma_merge_keeps_what_is_set(flag: Flag, prev_flag: Flag, value: Seq<char>, prev: Seq<char>, default: Seq<char>)
    ensures
        flag.is_set() ==> flag.merged(prev_flag) == flag,
        value.len() > 0 ==> inherited(value, prev) == value,
        value.len() > 0 ==> inherited(inherited(value, prev), default) == value,
{
}

/// After the `http` block has been merged into a `server` block and that into
/// a `location` block, the `location` block has every text that any of the
/// three had: its own if it has one, else that of the `server` block, else
/// that of the `http` block. Where there is no tier in between, the same holds
/// of the two.
pub proof fn lemma_inheritance_reaches_route(global: Seq<char>, group: Seq<char>, route: Seq<char>)
    ensures
        ({
            let merged_group = inherited(group, global);
            let merged_route = inherited(route, merged_group);
            &&& global.len() > 0 || group.len() > 0 || route.len() > 0 ==> merged_route.len() > 0
            &&& merged_route == (if route.len() > 0 {
                route
            } else if group.len() > 0 {
                group
            } else {
                global
            })
        }),
        global.len() > 0 || route.len() > 0 ==> inherited(route, global).len() > 0,
{
}

/// A switch that is on in a tier is on in every tier within it after the
/// merges, unless a directive in between has turned it off: that stays off.
pub proof fn lemma_enable_is_inherited(global: Flag, group: Flag, route: Flag)
    requires
        group != Flag::Off,
        route != Flag::Off,
    ensures
        ({
            let merged_group = group.merged(global);
            let merged_route = route.merged(merged_group);
            &&& global.enabled() ==> merged_group.enabled() && merged_route.enabled()
            &&& group.enabled() ==> merged_group.enabled() && merged_route.enabled()
            &&& route.enabled() ==> merged_route.enabled()
            &&& merged_route.enabled() == (global.enabled() || group.enabled() || route.enabled())
        }),
        global.enabled() ==> route.merged(global).enabled(),
{
}

/// A text that a module needs and that no tier has set makes the merge of a
/// tier fail exactly if the switch is on there once it is merged. So, going
/// from the outside in, the first merge to fail is that of the first tier at
/// which the switch is on.
pub proof fn lemma_missing_value_fails_where_enabled(global: Flag, group: Flag, route: Flag)
    ensures
        ({
            let nothing = Seq::<char>::empty();
            let merged_group = group.merged(global);
            let merged_route = route.merged(merged_group);
            let group_text = inherited(nothing, nothing);
            let route_text = inherited(nothing, group_text);
            &&& required_verdict(merged_group.enabled(), group_text) is Err <==> merged_group.enabled()
            &&& required_verdict(merged_route.enabled(), route_text) is Err <==> merged_route.enabled()
            &&& required_verdict(merged_group.enabled(), group_text) is Err ==> required_verdict(
                merged_group.enabled(),
                group_text,
            ) == Err::<(), MergeConfigError>(MergeConfigError::NoValue)
            &&& required_verdict(merged_route.enabled(), route_text) is Err ==> required_verdict(
                merged_route.enabled(),
                route_text,
            ) == Err::<(), MergeConfigError>(MergeConfigError::NoValue)
        }),
{
}

} // verus!
