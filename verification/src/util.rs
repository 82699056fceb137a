//! Small helpers.

use vstd::prelude::*;

verus! {

/// A value that is either borrowed or owned.
pub enum Boo<'a, T> {
    Borrowed(&'a T),
    Owned(Box<T>),
}

impl<'a, T> Boo<'a, T> {
    /// The value, borrowed or owned.
    pub open spec fn value(&self) -> T {
        match self {
            Boo::Borrowed(t) => **t,
            Boo::Owned(t) => **t,
        }
    }

    /// The reference, if the value is borrowed.
    pub fn borrowed(self) -> (r: Option<&'a T>)
        ensures
            match self {
                Boo::Borrowed(t) => r == Some(t),
                Boo::Owned(_) => r is None,
            },
    {
        match self {
            Boo::Owned(_) => None,
            Boo::Borrowed(t) => Some(t),
        }
    }

    /// The value, if it is owned.
    pub fn owned(self) -> (r: Option<T>)
        ensures
            match self {
                Boo::Borrowed(_) => r is None,
                Boo::Owned(t) => r == Some(*t),
            },
    {
        match self {
            Boo::Borrowed(_) => None,
            Boo::Owned(t) => Some(*t),
        }
    }

    /// The reference if there is one, else `owned`.
    pub fn from_some_ref_or(opt: Option<&'a T>, owned: T) -> (r: Self)
        ensures
            match opt {
                Some(v) => r == Boo::Borrowed(v),
                None => r == Boo::<T>::Owned(Box::new(owned)),
            },
    {
        match opt {
            Some(v) => Boo::Borrowed(v),
            None => Boo::Owned(Box::new(owned)),
        }
    }

    /// The reference if there is one, else what `t_fn` makes. `t_fn` is
    /// called only where there is no reference.
    pub fn from_some_ref_or_else<F: FnOnce() -> T>(opt: Option<&'a T>, t_fn: F) -> (r: Self)
        requires
            opt is None ==> t_fn.requires(()),
        ensures
            match opt {
                Some(v) => r == Boo::Borrowed(v),
                None => r matches Boo::Owned(t) && t_fn.ensures((), *t),
            },
    {
        match opt {
            Some(v) => Boo::Borrowed(v),
            None => Boo::Owned(Box::new(t_fn())),
        }
    }

    /// The value, whoever owns it.
    pub fn as_ref(&self) -> (r: &T)
        ensures
            *r == self.value(),
    {
        match self {
            Boo::Borrowed(t) => *t,
            Boo::Owned(t) => &**t,
        }
    }

}

impl<'a, T> From<T> for Boo<'a, T> {
    /// An owned value.
    fn from(t: T) -> (r: Self) {
        Boo::Owned(Box::new(t))
    }
}

impl<'a, T> vstd::std_specs::convert::FromSpecImpl<T> for Boo<'a, T> {
    open spec fn obeys_from_spec() -> bool {
        true
    }

    open spec fn from_spec(t: T) -> Self {
        Boo::Owned(Box::new(t))
    }
}

impl<'a, T> From<&'a T> for Boo<'a, T> {
    /// A borrowed value.
    fn from(t: &'a T) -> (r: Self) {
        Boo::Borrowed(t)
    }
}

impl<'a, T> vstd::std_specs::convert::FromSpecImpl<&'a T> for Boo<'a, T> {
    open spec fn obeys_from_spec() -> bool {
        true
    }

    open spec fn from_spec(t: &'a T) -> Self {
        Boo::Borrowed(t)
    }
}

impl<'a, T: Default> Boo<'a, T> {
    /// The reference if there is one, else the default value of `T`.
    pub fn from_some_ref_or_default(opt: Option<&'a T>) -> (r: Self)
        ensures
            match opt {
                Some(v) => r == Boo::Borrowed(v),
                None => r matches Boo::Owned(t) && call_ensures(T::default, (), *t),
            },
    {
        match opt {
            Some(v) => Boo::Borrowed(v),
            None => Boo::Owned(Box::new(T::default())),
        }
    }
}

} // verus!
