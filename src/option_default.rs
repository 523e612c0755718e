//! A resolved setting that remembers whether the user supplied it.

use vstd::prelude::*;

verus! {

/// A setting resolved from an optional user-supplied value and a default.
///
/// `value` always holds the resolved setting; `explicit` tells whether the
/// user supplied it, which drives the warnings about settings that the active
/// mode leaves unused.
#[derive(Clone, Copy, Debug, PartialEq, Eq, Structural)]
pub struct OptionDefault<T> {
    pub value: T,
    pub explicit: bool,
}

/// The value that `OptionDefault::new(opt, default)` resolves to.
pub open spec fn resolve_or<T>(opt: Option<T>, default: T) -> T {
    match opt {
        Some(v) => v,
        None => default,
    }
}

/// The setting that `OptionDefault::new(opt, default)` returns.
pub open spec fn option_default<T>(opt: Option<T>, default: T) -> OptionDefault<T> {
    OptionDefault { value: resolve_or(opt, default), explicit: opt is Some }
}

impl<T: Copy> OptionDefault<T> {
    /// Takes the supplied value if there is one, the default otherwise.
    pub fn new(opt: Option<T>, default: T) -> (r: Self)
        ensures
            r == option_default(opt, default),
    {
        match opt {
            Some(v) => OptionDefault { value: v, explicit: true },
            None => OptionDefault { value: default, explicit: false },
        }
    }

    /// A value that the user supplied.
    pub fn given(v: T) -> (r: Self)
        ensures
            r.value == v,
            r.explicit,
    {
        OptionDefault { value: v, explicit: true }
    }

    /// Keeps `self` unless an override is present, which then wins.
    pub fn overridden_by(self, over: Option<T>) -> (r: Self)
        ensures
            r.value == resolve_or(over, self.value),
            r.explicit == (over is Some || self.explicit),
    {
        match over {
            Some(v) => Self::given(v),
            None => self,
        }
    }

    /// The resolved value.
    pub fn value(&self) -> (r: T)
        ensures
            r == self.value,
    {
        self.value
    }

    /// Whether the user supplied the value.
    pub fn is_some(&self) -> (r: bool)
        ensures
            r == self.explicit,
    {
        self.explicit
    }
}

impl OptionDefault<usize> {
    /// Whether the user supplied exactly `v`.
    pub fn eq_some(&self, v: usize) -> (r: bool)
        ensures
            r == (self.explicit && self.value == v),
    {
        self.explicit && self.value == v
    }
}

} // verus!
