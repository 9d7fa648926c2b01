use vstd::prelude::*;

verus! {

/// Marks what it wraps as using the human-readable form: flag `true`.
#[derive(Debug, PartialEq, Eq, PartialOrd, Ord)]
pub struct Readable<T>(pub T);

/// Marks what it wraps as using the compact form: flag `false`.
#[derive(Debug, PartialEq, Eq, PartialOrd, Ord)]
pub struct Compact<T>(pub T);

impl<T> Readable<T> {
    /// The outcome of an operation with the tag taken off a capability it yielded.
    pub open spec fn untagged<E>(outcome: Result<Readable<T>, E>) -> Result<T, E> {
        match outcome {
            Ok(tagged) => Ok(tagged.0),
            Err(error) => Err(error),
        }
    }

    /// The outcome of an operation with the tag taken off the accessor it yielded beside a value.
    pub open spec fn untagged_variant<A, E>(
        outcome: Result<(A, Readable<T>), E>,
    ) -> Result<(A, T), E> {
        match outcome {
            Ok((value, tagged)) => Ok((value, tagged.0)),
            Err(error) => Err(error),
        }
    }

    /// What was drawn from a source, with the tag taken off.
    pub open spec fn untagged_item(drawn: Option<Readable<T>>) -> Option<T> {
        match drawn {
            Some(tagged) => Some(tagged.0),
            None => None,
        }
    }

    /// The entry that was drawn from a source, with the tag taken off its key and its value.
    pub open spec fn untagged_entry<U>(
        drawn: Option<(Readable<T>, Readable<U>)>,
    ) -> Option<(T, U)> {
        match drawn {
            Some((key, value)) => Some((key.0, value.0)),
            None => None,
        }
    }

    /// Tags the capability that an operation yielded. A failure stays as it is.
    pub fn tag_outcome<E>(outcome: Result<T, E>) -> (tagged: Result<Readable<T>, E>)
        ensures
            outcome matches Ok(inner) ==> tagged == Ok::<Readable<T>, E>(Readable(inner)),
            outcome matches Err(error) ==> tagged == Err::<Readable<T>, E>(error),
            Self::untagged(tagged) == outcome,
    {
        match outcome {
            Ok(inner) => Ok(Readable(inner)),
            Err(error) => Err(error),
        }
    }

    /// Tags the accessor that an operation yielded beside a value. The value and a failure stay as
    /// they are.
    pub fn tag_variant<A, E>(outcome: Result<(A, T), E>) -> (tagged: Result<(A, Readable<T>), E>)
        ensures
            outcome matches Ok((value, inner)) ==> tagged == Ok::<(A, Readable<T>), E>(
                (value, Readable(inner)),
            ),
            outcome matches Err(error) ==> tagged == Err::<(A, Readable<T>), E>(error),
            Self::untagged_variant(tagged) == outcome,
    {
        match outcome {
            Ok((value, inner)) => Ok((value, Readable(inner))),
            Err(error) => Err(error),
        }
    }

    /// Tags what was drawn from a source, if anything was.
    pub fn tag_item(drawn: Option<T>) -> (tagged: Option<Readable<T>>)
        ensures
            drawn matches Some(item) ==> tagged == Some(Readable(item)),
            drawn is None ==> tagged is None,
            Self::untagged_item(tagged) == drawn,
    {
        match drawn {
            Some(item) => Some(Readable(item)),
            None => None,
        }
    }

    /// Tags the key and the value of the entry that was drawn from a source, if one was.
    pub fn tag_entry<U>(drawn: Option<(T, U)>) -> (tagged: Option<(Readable<T>, Readable<U>)>)
        ensures
            drawn matches Some((key, value)) ==> tagged == Some((Readable(key), Readable(value))),
            drawn is None ==> tagged is None,
            Self::untagged_entry(tagged) == drawn,
    {
        match drawn {
            Some((key, value)) => Some((Readable(key), Readable(value))),
            None => None,
        }
    }
}

impl<T> Compact<T> {
    /// The outcome of an operation with the tag taken off a capability it yielded.
    pub open spec fn untagged<E>(outcome: Result<Compact<T>, E>) -> Result<T, E> {
        match outcome {
            Ok(tagged) => Ok(tagged.0),
            Err(error) => Err(error),
        }
    }

    /// The outcome of an operation with the tag taken off the accessor it yielded beside a value.
    pub open spec fn untagged_variant<A, E>(
        outcome: Result<(A, Compact<T>), E>,
    ) -> Result<(A, T), E> {
        match outcome {
            Ok((value, tagged)) => Ok((value, tagged.0)),
            Err(error) => Err(error),
        }
    }

    /// What was drawn from a source, with the tag taken off.
    pub open spec fn untagged_item(drawn: Option<Compact<T>>) -> Option<T> {
        match drawn {
            Some(tagged) => Some(tagged.0),
            None => None,
        }
    }

    /// The entry that was drawn from a source, with the tag taken off its key and its value.
    pub open spec fn untagged_entry<U>(
        drawn: Option<(Compact<T>, Compact<U>)>,
    ) -> Option<(T, U)> {
        match drawn {
            Some((key, value)) => Some((key.0, value.0)),
            None => None,
        }
    }

    /// Tags the capability that an operation yielded. A failure stays as it is.
    pub fn tag_outcome<E>(outcome: Result<T, E>) -> (tagged: Result<Compact<T>, E>)
        ensures
            outcome matches Ok(inner) ==> tagged == Ok::<Compact<T>, E>(Compact(inner)),
            outcome matches Err(error) ==> tagged == Err::<Compact<T>, E>(error),
            Self::untagged(tagged) == outcome,
    {
        match outcome {
            Ok(inner) => Ok(Compact(inner)),
            Err(error) => Err(error),
        }
    }

    /// Tags the accessor that an operation yielded beside a value. The value and a failure stay as
    /// they are.
    pub fn tag_variant<A, E>(outcome: Result<(A, T), E>) -> (tagged: Result<(A, Compact<T>), E>)
        ensures
            outcome matches Ok((value, inner)) ==> tagged == Ok::<(A, Compact<T>), E>(
                (value, Compact(inner)),
            ),
            outcome matches Err(error) ==> tagged == Err::<(A, Compact<T>), E>(error),
            Self::untagged_variant(tagged) == outcome,
    {
        match outcome {
            Ok((value, inner)) => Ok((value, Compact(inner))),
            Err(error) => Err(error),
        }
    }

    /// Tags what was drawn from a source, if anything was.
    pub fn tag_item(drawn: Option<T>) -> (tagged: Option<Compact<T>>)
        ensures
            drawn matches Some(item) ==> tagged == Some(Compact(item)),
            drawn is None ==> tagged is None,
            Self::untagged_item(tagged) == drawn,
    {
        match drawn {
            Some(item) => Some(Compact(item)),
            None => None,
        }
    }

    /// Tags the key and the value of the entry that was drawn from a source, if one was.
    pub fn tag_entry<U>(drawn: Option<(T, U)>) -> (tagged: Option<(Compact<T>, Compact<U>)>)
        ensures
            drawn matches Some((key, value)) ==> tagged == Some((Compact(key), Compact(value))),
            drawn is None ==> tagged is None,
            Self::untagged_entry(tagged) == drawn,
    {
        match drawn {
            Some((key, value)) => Some((Compact(key), Compact(value))),
            None => None,
        }
    }
}

/// Tags any value, engine or accessor with a format mode.
pub trait Configure {
    /// Marks `self` as using `is_human_readable == true`.
    fn readable(self) -> (tagged: Readable<Self>) where Self: Sized
        ensures
            tagged == Readable(self),
    {
        Readable(self)
    }

    /// Marks `self` as using `is_human_readable == false`.
    fn compact(self) -> (tagged: Compact<Self>) where Self: Sized
        ensures
            tagged == Compact(self),
    {
        Compact(self)
    }
}

impl<T: ?Sized> Configure for T {
}

} // verus!
