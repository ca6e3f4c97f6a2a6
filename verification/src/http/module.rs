//! The callbacks through which nginx builds a module's configuration, on two
//! levels.
//!
//! [`RawHttpModule`] is what nginx's callback table needs, with addresses for
//! pointers and nothing for a value whose pointer was null. [`HttpModule`] is
//! what a module writes: the same callbacks with the null cases taken care
//! of. Every module that has the second has the first.
//!
//! nginx calls them in a fixed order: before the configuration is read, then
//! once for each value to create as it enters a block, after the reading once
//! to initialise the value of the `http` block, once for each `server` and
//! each `location` block to merge the value of the enclosing tier into it,
//! and last after everything is merged. A callback that fails ends the
//! startup.
use vstd::prelude::*;

use crate::base::{
    conf_status, conf_status_of, int_status, int_status_of, Addr, NGX_CONF_ERROR, NGX_CONF_OK, NGX_ERROR, NGX_OK,
};

verus! {

/// Why a configuration value could not be merged with that of the tier
/// around it.
#[derive(Debug, Clone, Copy, PartialEq, Eq, Structural)]
pub enum MergeConfigError {
    /// A value that must be given was given at no tier.
    NoValue,
}

impl MergeConfigError {
    /// The error in words.
    pub fn to_string(&self) -> (text: String)
        ensures
            text@ == "no value"@,
    {
        match self {
            MergeConfigError::NoValue => "no value".to_owned(),
        }
    }
}

/// How a configuration value takes over what the tier around it has set.
///
/// nginx asks for this once for each pair of a block and the block around it,
/// after both have been read and before any request is served. What a
/// directive has set in the inner block stays; what no directive has set
/// there is taken from `prev`.
pub trait Merge {
    /// Merges the value of the enclosing tier, `prev`, into this one.
    fn merge(&mut self, prev: &Self) -> (res: Result<(), MergeConfigError>);
}

impl Merge for () {
    fn merge(&mut self, prev: &Self) -> (res: Result<(), MergeConfigError>)
        ensures
            res is Ok,
    {
        Ok(())
    }
}

/// What a creating callback does unless a module says otherwise: makes the
/// value in its default state.
pub fn default_conf<C: Default>() -> (conf: C)
    ensures
        call_ensures(C::default, (), conf),
{
    C::default()
}

/// What a merging callback does unless a module says otherwise: merges the
/// value of the enclosing tier, `prev`, into `conf` by the value's own rule.
pub fn default_merge<C: Merge>(prev: &C, conf: &mut C) -> (res: Result<(), MergeConfigError>)
    ensures
        exists|handed: &mut C|
            {
                &&& *handed == *old(conf)
                &&& *final(handed) == *final(conf)
                &&& #[trigger] call_ensures(C::merge, (handed, prev), res)
            },
{
    conf.merge(prev)
}

/// The callbacks as nginx's callback table needs them.
///
/// A pointer to nginx's own record of the configuration pass comes as an
/// address, null as `0`. A pointer to one of the module's values comes as the
/// value, or as nothing where the pointer was null. A creating callback
/// answers with the value to be put into the pool of the pass, or with
/// nothing, for which nginx is given null.
pub trait RawHttpModule {
    /// The value for the `http` block.
    type MainConf: Merge + Default;

    /// The value for a `server` block.
    type SrvConf: Merge + Default;

    /// The value for a `location` block.
    type LocConf: Merge + Default;

    /// Runs before the configuration is read. Without a record of the pass
    /// the answer is `NGX_ERROR`; with one, unless a module says otherwise, it
    /// is `NGX_OK`.
    fn preconfiguration(cf: usize) -> (code: isize)
        ensures
            cf == 0 ==> code == NGX_ERROR,
        default_ensures
            cf != 0 ==> code == NGX_OK,
    {
        if cf == 0 {
            NGX_ERROR
        } else {
            NGX_OK
        }
    }

    /// Runs after the configuration is read and merged. Without a record of
    /// the pass the answer is `NGX_ERROR`; with one, unless a module says
    /// otherwise, it is `NGX_OK`.
    fn postconfiguration(cf: usize) -> (code: isize)
        ensures
            cf == 0 ==> code == NGX_ERROR,
        default_ensures
            cf != 0 ==> code == NGX_OK,
    {
        if cf == 0 {
            NGX_ERROR
        } else {
            NGX_OK
        }
    }

    /// Makes the value for the `http` block. Without a record of the pass
    /// there is no pool to put it into, and no value; with one, unless a
    /// module says otherwise, there is the value in its default state.
    fn create_main_conf(cf: usize) -> (conf: Option<Self::MainConf>)
        ensures
            cf == 0 ==> conf is None,
        default_ensures
            cf != 0 ==> (conf matches Some(value) && call_ensures(<Self::MainConf as Default>::default, (), value)),
    {
        if cf == 0 {
            None
        } else {
            Some(default_conf())
        }
    }

    /// Initialises the value for the `http` block once it has been read.
    /// Without a record of the pass or without the value, nothing is changed
    /// and the answer is the error sentinel. Otherwise, unless a module says
    /// otherwise, the value stays as it is and the answer is success.
    fn init_main_conf(cf: usize, conf: Option<&mut Self::MainConf>) -> (status: usize)
        ensures
            status == NGX_CONF_OK || status == NGX_CONF_ERROR,
            cf == 0 || conf is None ==> status == NGX_CONF_ERROR,
            cf == 0 ==> (conf matches Some(value) ==> *final(value) == *value),
        default_ensures
            cf != 0 && conf is Some ==> status == NGX_CONF_OK,
            conf matches Some(value) ==> *final(value) == *value,
    {
        if cf == 0 || conf.is_none() {
            NGX_CONF_ERROR
        } else {
            NGX_CONF_OK
        }
    }

    /// Makes the value for a `server` block. Without a record of the pass
    /// there is no value; with one, unless a module says otherwise, there is
    /// the value in its default state.
    fn create_srv_conf(cf: usize) -> (conf: Option<Self::SrvConf>)
        ensures
            cf == 0 ==> conf is None,
        default_ensures
            cf != 0 ==> (conf matches Some(value) && call_ensures(<Self::SrvConf as Default>::default, (), value)),
    {
        if cf == 0 {
            None
        } else {
            Some(default_conf())
        }
    }

    /// Merges the value of the `http` block, `prev`, into that of a `server`
    /// block, `conf`. Without a record of the pass or without either value,
    /// nothing is changed and the answer is the error sentinel. Otherwise,
    /// unless a module says otherwise, the merge is done by the value's own
    /// rule: `prev` stays as it is, `conf` is as the rule leaves it, and the
    /// answer is the sentinel for how the rule ended.
    fn merge_srv_conf(cf: usize, prev: Option<&mut Self::SrvConf>, conf: Option<&mut Self::SrvConf>) -> (status: usize)
        ensures
            status == NGX_CONF_OK || status == NGX_CONF_ERROR,
            cf == 0 || prev is None || conf is None ==> status == NGX_CONF_ERROR,
            cf == 0 || prev is None || conf is None ==> (conf matches Some(value) ==> *final(value) == *value)
                && (prev matches Some(value) ==> *final(value) == *value),
        default_ensures
            cf != 0 ==> (prev matches Some(outer) ==> (conf matches Some(inner) ==> *final(outer) == *outer
                && exists|handed: &mut Self::SrvConf, outcome: Result<(), MergeConfigError>|
                {
                    &&& *handed == *inner
                    &&& *final(handed) == *final(inner)
                    &&& #[trigger] call_ensures(<Self::SrvConf as Merge>::merge, (handed, &*outer), outcome)
                    &&& status == conf_status_of(outcome is Ok)
                })),
    {
        if cf == 0 {
            return NGX_CONF_ERROR;
        }
        match (prev, conf) {
            (Some(prev), Some(conf)) => {
                let merged = default_merge(prev, conf);
                conf_status(&merged)
            },
            _ => NGX_CONF_ERROR,
        }
    }

    /// Makes the value for a `location` block. Without a record of the pass
    /// there is no value; with one, unless a module says otherwise, there is
    /// the value in its default state.
    fn create_loc_conf(cf: usize) -> (conf: Option<Self::LocConf>)
        ensures
            cf == 0 ==> conf is None,
        default_ensures
            cf != 0 ==> (conf matches Some(value) && call_ensures(<Self::LocConf as Default>::default, (), value)),
    {
        if cf == 0 {
            None
        } else {
            Some(default_conf())
        }
    }

    /// Merges the value of the enclosing block, `prev`, into that of a
    /// `location` block, `conf`. Without a record of the pass or without
    /// either value, nothing is changed and the answer is the error sentinel.
    /// Otherwise, unless a module says otherwise, the merge is done by the
    /// value's own rule: `prev` stays as it is, `conf` is as the rule leaves
    /// it, and the answer is the sentinel for how the rule ended.
    fn merge_loc_conf(cf: usize, prev: Option<&mut Self::LocConf>, conf: Option<&mut Self::LocConf>) -> (status: usize)
        ensures
            status == NGX_CONF_OK || status == NGX_CONF_ERROR,
            cf == 0 || prev is None || conf is None ==> status == NGX_CONF_ERROR,
            cf == 0 || prev is None || conf is None ==> (conf matches Some(value) ==> *final(value) == *value)
                && (prev matches Some(value) ==> *final(value) == *value),
        default_ensures
            cf != 0 ==> (prev matches Some(outer) ==> (conf matches Some(inner) ==> *final(outer) == *outer
                && exists|handed: &mut Self::LocConf, outcome: Result<(), MergeConfigError>|
                {
                    &&& *handed == *inner
                    &&& *final(handed) == *final(inner)
                    &&& #[trigger] call_ensures(<Self::LocConf as Merge>::merge, (handed, &*outer), outcome)
                    &&& status == conf_status_of(outcome is Ok)
                })),
    {
        if cf == 0 {
            return NGX_CONF_ERROR;
        }
        match (prev, conf) {
            (Some(prev), Some(conf)) => {
                let merged = default_merge(prev, conf);
                conf_status(&merged)
            },
            _ => NGX_CONF_ERROR,
        }
    }
}

/// The callbacks as a module writes them. Each has a default: succeed, make
/// the default value, merge by the value's own rule.
pub trait HttpModule {
    /// The value for the `http` block.
    type MainConf: Merge + Default;

    /// The value for a `server` block.
    type SrvConf: Merge + Default;

    /// The value for a `location` block.
    type LocConf: Merge + Default;

    /// Runs before the configuration is read. Unless a module says otherwise,
    /// it succeeds.
    fn preconfiguration(cf: Addr) -> (res: Result<(), ()>)
        default_ensures
            res is Ok,
    {
        Ok(())
    }

    /// Runs after the configuration is read and merged. This is where a
    /// module registers its handlers. Unless a module says otherwise, it
    /// succeeds.
    fn postconfiguration(cf: Addr) -> (res: Result<(), ()>)
        default_ensures
            res is Ok,
    {
        Ok(())
    }

    /// Makes the value for the `http` block. Unless a module says otherwise,
    /// that is the value in its default state.
    fn create_main_conf(cf: Addr) -> (res: Result<Self::MainConf, ()>)
        default_ensures
            res matches Ok(value) && call_ensures(<Self::MainConf as Default>::default, (), value),
    {
        Ok(default_conf())
    }

    /// Initialises the value for the `http` block once it has been read.
    /// Unless a module says otherwise, it succeeds and leaves the value as it
    /// is.
    fn init_main_conf(cf: Addr, conf: &mut Self::MainConf) -> (res: Result<(), ()>)
        default_ensures
            res is Ok,
            *final(conf) == *old(conf),
    {
        Ok(())
    }

    /// Makes the value for a `server` block. Unless a module says otherwise,
    /// that is the value in its default state.
    fn create_srv_conf(cf: Addr) -> (res: Result<Self::SrvConf, ()>)
        default_ensures
            res matches Ok(value) && call_ensures(<Self::SrvConf as Default>::default, (), value),
    {
        Ok(default_conf())
    }

    /// Merges the value of the `http` block, `prev`, into that of a `server`
    /// block, `conf`. Unless a module says otherwise, that is done by the
    /// value's own rule: `prev` stays as it is, `conf` is as the rule leaves
    /// it, and the merge succeeds exactly if the rule does.
    fn merge_srv_conf(cf: Addr, prev: &mut Self::SrvConf, conf: &mut Self::SrvConf) -> (res: Result<(), ()>)
        default_ensures
            *final(prev) == *old(prev),
            exists|handed: &mut Self::SrvConf, outcome: Result<(), MergeConfigError>|
                {
                    &&& *handed == *old(conf)
                    &&& *final(handed) == *final(conf)
                    &&& #[trigger] call_ensures(<Self::SrvConf as Merge>::merge, (handed, &*old(prev)), outcome)
                    &&& res is Ok <==> outcome is Ok
                },
    {
        match default_merge(prev, conf) {
            Ok(_) => Ok(()),
            Err(_) => Err(()),
        }
    }

    /// Makes the value for a `location` block. Unless a module says
    /// otherwise, that is the value in its default state.
    fn create_loc_conf(cf: Addr) -> (res: Result<Self::LocConf, ()>)
        default_ensures
            res matches Ok(value) && call_ensures(<Self::LocConf as Default>::default, (), value),
    {
        Ok(default_conf())
    }

    /// Merges the value of the enclosing block, `prev`, into that of a
    /// `location` block, `conf`. Unless a module says otherwise, that is done
    /// by the value's own rule: `prev` stays as it is, `conf` is as the rule
    /// leaves it, and the merge succeeds exactly if the rule does.
    fn merge_loc_conf(cf: Addr, prev: &mut Self::LocConf, conf: &mut Self::LocConf) -> (res: Result<(), ()>)
        default_ensures
            *final(prev) == *old(prev),
            exists|handed: &mut Self::LocConf, outcome: Result<(), MergeConfigError>|
                {
                    &&& *handed == *old(conf)
                    &&& *final(handed) == *final(conf)
                    &&& #[trigger] call_ensures(<Self::LocConf as Merge>::merge, (handed, &*old(prev)), outcome)
                    &&& res is Ok <==> outcome is Ok
                },
    {
        match default_merge(prev, conf) {
            Ok(_) => Ok(()),
            Err(_) => Err(()),
        }
    }
}

/// The value a creating callback hands on: what the module made, or nothing
/// if it failed.
pub open spec fn created_of<C>(made: Result<C, ()>) -> Option<C> {
    match made {
        Ok(value) => Some(value),
        Err(_) => None,
    }
}

/// The value a creating callback hands on: what the module made, or nothing
/// if it failed.
pub fn created<C>(made: Result<C, ()>) -> (conf: Option<C>)
    ensures
        conf == created_of(made),
{
    match made {
        Ok(value) => Some(value),
        Err(_) => None,
    }
}

/// What nginx is answered before the configuration is read, for a module
/// that has the typed callbacks. Without a record of the pass the module is
/// not asked, and the answer is `NGX_ERROR`; otherwise the module is asked
/// once, and the answer is `NGX_OK` or `NGX_ERROR` as it succeeds or fails.
pub fn preconfiguration<T: HttpModule>(cf: usize) -> (code: isize)
    ensures
        cf == 0 ==> code == NGX_ERROR,
        cf != 0 ==> exists|outcome: Result<(), ()>|
            {
                &&& #[trigger] call_ensures(<T as HttpModule>::preconfiguration, (Addr::at(cf),), outcome)
                &&& code == int_status_of(outcome is Ok)
            },
{
    let cf = match Addr::new(cf) {
        Some(cf) => cf,
        None => return NGX_ERROR,
    };
    int_status(&<T as HttpModule>::preconfiguration(cf))
}

/// What nginx is answered after the configuration is read and merged, for a
/// module that has the typed callbacks. Without a record of the pass the
/// module is not asked, and the answer is `NGX_ERROR`; otherwise the module is
/// asked once, and the answer is `NGX_OK` or `NGX_ERROR` as it succeeds or
/// fails.
pub fn postconfiguration<T: HttpModule>(cf: usize) -> (code: isize)
    ensures
        cf == 0 ==> code == NGX_ERROR,
        cf != 0 ==> exists|outcome: Result<(), ()>|
            {
                &&& #[trigger] call_ensures(<T as HttpModule>::postconfiguration, (Addr::at(cf),), outcome)
                &&& code == int_status_of(outcome is Ok)
            },
{
    let cf = match Addr::new(cf) {
        Some(cf) => cf,
        None => return NGX_ERROR,
    };
    int_status(&<T as HttpModule>::postconfiguration(cf))
}

/// The value for the `http` block, to be put into the pool of the pass, for
/// a module that has the typed callbacks. Without a record of the pass the
/// module is not asked and there is no value; otherwise the module is asked
/// once, and there is the value it made, if it made one.
pub fn create_main_conf<T: HttpModule>(cf: usize) -> (conf: Option<<T as HttpModule>::MainConf>)
    ensures
        cf == 0 ==> conf is None,
        cf != 0 ==> exists|made: Result<<T as HttpModule>::MainConf, ()>|
            {
                &&& #[trigger] call_ensures(<T as HttpModule>::create_main_conf, (Addr::at(cf),), made)
                &&& conf == created_of(made)
            },
{
    let cf = match Addr::new(cf) {
        Some(cf) => cf,
        None => return None,
    };
    created(<T as HttpModule>::create_main_conf(cf))
}

/// What nginx is answered when the value for the `http` block has been read,
/// for a module that has the typed callbacks. Without a record of the pass or
/// without the value the module is not asked, nothing is changed, and the
/// answer is the error sentinel. Otherwise the module is asked once, with the
/// value, and the answer is the sentinel for what it returned.
pub fn init_main_conf<T: HttpModule>(cf: usize, conf: Option<&mut <T as HttpModule>::MainConf>) -> (status: usize)
    ensures
        cf == 0 || conf is None ==> status == NGX_CONF_ERROR,
        cf == 0 ==> (conf matches Some(value) ==> *final(value) == *value),
        cf != 0 ==> (conf matches Some(value) ==> exists|
            handed: &mut <T as HttpModule>::MainConf,
            outcome: Result<(), ()>,
        |
            #![trigger call_ensures(<T as HttpModule>::init_main_conf, (Addr::at(cf), handed), outcome)]
            {
                &&& *handed == *value
                &&& *final(handed) == *final(value)
                &&& call_ensures(<T as HttpModule>::init_main_conf, (Addr::at(cf), handed), outcome)
                &&& status == conf_status_of(outcome is Ok)
            }),
{
    let cf = match Addr::new(cf) {
        Some(cf) => cf,
        None => return NGX_CONF_ERROR,
    };
    let conf = match conf {
        Some(conf) => conf,
        None => return NGX_CONF_ERROR,
    };
    conf_status(&<T as HttpModule>::init_main_conf(cf, conf))
}

/// The value for a `server` block, to be put into the pool of the pass, for
/// a module that has the typed callbacks. Without a record of the pass the
/// module is not asked and there is no value; otherwise the module is asked
/// once, and there is the value it made, if it made one.
pub fn create_srv_conf<T: HttpModule>(cf: usize) -> (conf: Option<<T as HttpModule>::SrvConf>)
    ensures
        cf == 0 ==> conf is None,
        cf != 0 ==> exists|made: Result<<T as HttpModule>::SrvConf, ()>|
            {
                &&& #[trigger] call_ensures(<T as HttpModule>::create_srv_conf, (Addr::at(cf),), made)
                &&& conf == created_of(made)
            },
{
    let cf = match Addr::new(cf) {
        Some(cf) => cf,
        None => return None,
    };
    created(<T as HttpModule>::create_srv_conf(cf))
}

/// What nginx is answered when it merges the value of the `http` block,
/// `prev`, into that of a `server` block, `conf`, for a module that has the
/// typed callbacks. Without a record of the pass or without either value the
/// module is not asked, nothing is changed, and the answer is the error
/// sentinel. Otherwise the module is asked once, with the two values, and the
/// answer is the sentinel for what it returned.
pub fn merge_srv_conf<T: HttpModule>(
    cf: usize,
    prev: Option<&mut <T as HttpModule>::SrvConf>,
    conf: Option<&mut <T as HttpModule>::SrvConf>,
) -> (status: usize)
    ensures
        cf == 0 || prev is None || conf is None ==> status == NGX_CONF_ERROR,
        cf == 0 || prev is None || conf is None ==> (conf matches Some(value) ==> *final(value) == *value) && (
        prev matches Some(value) ==> *final(value) == *value),
        cf != 0 ==> (prev matches Some(outer) ==> (conf matches Some(inner) ==> exists|
            prev_handed: &mut <T as HttpModule>::SrvConf,
            conf_handed: &mut <T as HttpModule>::SrvConf,
            outcome: Result<(), ()>,
        |
            #![trigger call_ensures(<T as HttpModule>::merge_srv_conf, (Addr::at(cf), prev_handed, conf_handed), outcome)]
            {
                &&& *prev_handed == *outer
                &&& *final(prev_handed) == *final(outer)
                &&& *conf_handed == *inner
                &&& *final(conf_handed) == *final(inner)
                &&& call_ensures(
                    <T as HttpModule>::merge_srv_conf,
                    (Addr::at(cf), prev_handed, conf_handed),
                    outcome,
                )
                &&& status == conf_status_of(outcome is Ok)
            })),
{
    let cf = match Addr::new(cf) {
        Some(cf) => cf,
        None => return NGX_CONF_ERROR,
    };
    let prev = match prev {
        Some(prev) => prev,
        None => return NGX_CONF_ERROR,
    };
    let conf = match conf {
        Some(conf) => conf,
        None => return NGX_CONF_ERROR,
    };
    conf_status(&<T as HttpModule>::merge_srv_conf(cf, prev, conf))
}

/// The value for a `location` block, to be put into the pool of the pass,
/// for a module that has the typed callbacks. Without a record of the pass
/// the module is not asked and there is no value; otherwise the module is
/// asked once, and there is the value it made, if it made one.
pub fn create_loc_conf<T: HttpModule>(cf: usize) -> (conf: Option<<T as HttpModule>::LocConf>)
    ensures
        cf == 0 ==> conf is None,
        cf != 0 ==> exists|made: Result<<T as HttpModule>::LocConf, ()>|
            {
                &&& #[trigger] call_ensures(<T as HttpModule>::create_loc_conf, (Addr::at(cf),), made)
                &&& conf == created_of(made)
            },
{
    let cf = match Addr::new(cf) {
        Some(cf) => cf,
        None => return None,
    };
    created(<T as HttpModule>::create_loc_conf(cf))
}

/// What nginx is answered when it merges the value of the enclosing block,
/// `prev`, into that of a `location` block, `conf`, for a module that has the
/// typed callbacks. Without a record of the pass or without either value the
/// module is not asked, nothing is changed, and the answer is the error
/// sentinel. Otherwise the module is asked once, with the two values, and the
/// answer is the sentinel for what it returned.
pub fn merge_loc_conf<T: HttpModule>(
    cf: usize,
    prev: Option<&mut <T as HttpModule>::LocConf>,
    conf: Option<&mut <T as HttpModule>::LocConf>,
) -> (status: usize)
    ensures
        cf == 0 || prev is None || conf is None ==> status == NGX_CONF_ERROR,
        cf == 0 || prev is None || conf is None ==> (conf matches Some(value) ==> *final(value) == *value) && (
        prev matches Some(value) ==> *final(value) == *value),
        cf != 0 ==> (prev matches Some(outer) ==> (conf matches Some(inner) ==> exists|
            prev_handed: &mut <T as HttpModule>::LocConf,
            conf_handed: &mut <T as HttpModule>::LocConf,
            outcome: Result<(), ()>,
        |
            #![trigger call_ensures(<T as HttpModule>::merge_loc_conf, (Addr::at(cf), prev_handed, conf_handed), outcome)]
            {
                &&& *prev_handed == *outer
                &&& *final(prev_handed) == *final(outer)
                &&& *conf_handed == *inner
                &&& *final(conf_handed) == *final(inner)
                &&& call_ensures(
                    <T as HttpModule>::merge_loc_conf,
                    (Addr::at(cf), prev_handed, conf_handed),
                    outcome,
                )
                &&& status == conf_status_of(outcome is Ok)
            })),
{
    let cf = match Addr::new(cf) {
        Some(cf) => cf,
        None => return NGX_CONF_ERROR,
    };
    let prev = match prev {
        Some(prev) => prev,
        None => return NGX_CONF_ERROR,
    };
    let conf = match conf {
        Some(conf) => conf,
        None => return NGX_CONF_ERROR,
    };
    conf_status(&<T as HttpModule>::merge_loc_conf(cf, prev, conf))
}

/// A module that has the typed callbacks, named apart from its own type.
///
/// Every such module is its own `Module`. The raw callbacks below are given
/// to whatever has this trait, so that within them a name such as
/// `create_main_conf` means the raw callback and nothing else.
pub trait Typed {
    /// The module whose typed callbacks stand behind the raw ones.
    type Module: HttpModule;
}

impl<T: HttpModule> Typed for T {
    type Module = T;
}

/// Every module that has the typed callbacks has the raw ones: each is the
/// function of the same name above, and says of itself what that function
/// says. Without a record of the pass the module is not asked; with one it is
/// asked once, and the answer is made from what it returned.
impl<T: Typed> RawHttpModule for T {
    type MainConf = <T::Module as HttpModule>::MainConf;

    type SrvConf = <T::Module as HttpModule>::SrvConf;

    type LocConf = <T::Module as HttpModule>::LocConf;

    fn preconfiguration(cf: usize) -> (code: isize)
        ensures
            cf != 0 ==> exists|outcome: Result<(), ()>|
                {
                    &&& #[trigger] call_ensures(<T::Module as HttpModule>::preconfiguration, (Addr::at(cf),), outcome)
                    &&& code == int_status_of(outcome is Ok)
                },
    {
        preconfiguration::<T::Module>(cf)
    }

    fn postconfiguration(cf: usize) -> (code: isize)
        ensures
            cf != 0 ==> exists|outcome: Result<(), ()>|
                {
                    &&& #[trigger] call_ensures(<T::Module as HttpModule>::postconfiguration, (Addr::at(cf),), outcome)
                    &&& code == int_status_of(outcome is Ok)
                },
    {
        postconfiguration::<T::Module>(cf)
    }

    fn create_main_conf(cf: usize) -> (conf: Option<Self::MainConf>)
        ensures
            cf != 0 ==> exists|made: Result<<T::Module as HttpModule>::MainConf, ()>|
                {
                    &&& #[trigger] call_ensures(<T::Module as HttpModule>::create_main_conf, (Addr::at(cf),), made)
                    &&& conf == created_of(made)
                },
    {
        create_main_conf::<T::Module>(cf)
    }

    fn init_main_conf(cf: usize, conf: Option<&mut Self::MainConf>) -> (status: usize)
        ensures
            cf != 0 ==> (conf matches Some(value) ==> exists|
                handed: &mut <T::Module as HttpModule>::MainConf,
                outcome: Result<(), ()>,
            |
                #![trigger call_ensures(<T::Module as HttpModule>::init_main_conf, (Addr::at(cf), handed), outcome)]
                {
                    &&& *handed == *value
                    &&& *final(handed) == *final(value)
                    &&& call_ensures(<T::Module as HttpModule>::init_main_conf, (Addr::at(cf), handed), outcome)
                    &&& status == conf_status_of(outcome is Ok)
                }),
    {
        init_main_conf::<T::Module>(cf, conf)
    }

    fn create_srv_conf(cf: usize) -> (conf: Option<Self::SrvConf>)
        ensures
            cf != 0 ==> exists|made: Result<<T::Module as HttpModule>::SrvConf, ()>|
                {
                    &&& #[trigger] call_ensures(<T::Module as HttpModule>::create_srv_conf, (Addr::at(cf),), made)
                    &&& conf == created_of(made)
                },
    {
        create_srv_conf::<T::Module>(cf)
    }

    fn merge_srv_conf(cf: usize, prev: Option<&mut Self::SrvConf>, conf: Option<&mut Self::SrvConf>) -> (status: usize)
        ensures
            cf != 0 ==> (prev matches Some(outer) ==> (conf matches Some(inner) ==> exists|
                prev_handed: &mut <T::Module as HttpModule>::SrvConf,
                conf_handed: &mut <T::Module as HttpModule>::SrvConf,
                outcome: Result<(), ()>,
            |
                #![trigger call_ensures(<T::Module as HttpModule>::merge_srv_conf, (Addr::at(cf), prev_handed, conf_handed), outcome)]
                {
                    &&& *prev_handed == *outer
                    &&& *final(prev_handed) == *final(outer)
                    &&& *conf_handed == *inner
                    &&& *final(conf_handed) == *final(inner)
                    &&& call_ensures(
                        <T::Module as HttpModule>::merge_srv_conf,
                        (Addr::at(cf), prev_handed, conf_handed),
                        outcome,
                    )
                    &&& status == conf_status_of(outcome is Ok)
                })),
    {
        merge_srv_conf::<T::Module>(cf, prev, conf)
    }

    fn create_loc_conf(cf: usize) -> (conf: Option<Self::LocConf>)
        ensures
            cf != 0 ==> exists|made: Result<<T::Module as HttpModule>::LocConf, ()>|
                {
                    &&& #[trigger] call_ensures(<T::Module as HttpModule>::create_loc_conf, (Addr::at(cf),), made)
                    &&& conf == created_of(made)
                },
    {
        create_loc_conf::<T::Module>(cf)
    }

    fn merge_loc_conf(cf: usize, prev: Option<&mut Self::LocConf>, conf: Option<&mut Self::LocConf>) -> (status: usize)
        ensures
            cf != 0 ==> (prev matches Some(outer) ==> (conf matches Some(inner) ==> exists|
                prev_handed: &mut <T::Module as HttpModule>::LocConf,
                conf_handed: &mut <T::Module as HttpModule>::LocConf,
                outcome: Result<(), ()>,
            |
                #![trigger call_ensures(<T::Module as HttpModule>::merge_loc_conf, (Addr::at(cf), prev_handed, conf_handed), outcome)]
                {
                    &&& *prev_handed == *outer
                    &&& *final(prev_handed) == *final(outer)
                    &&& *conf_handed == *inner
                    &&& *final(conf_handed) == *final(inner)
                    &&& call_ensures(
                        <T::Module as HttpModule>::merge_loc_conf,
                        (Addr::at(cf), prev_handed, conf_handed),
                        outcome,
                    )
                    &&& status == conf_status_of(outcome is Ok)
                })),
    {
        merge_loc_conf::<T::Module>(cf, prev, conf)
    }
}

} // verus!
