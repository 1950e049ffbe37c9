//! Loading typed values, and whole structures, from the environment.

use crate::env::Environment;
use crate::error::Error;
use crate::parse::FromText;
use vstd::prelude::*;

verus! {

/// What loading the variable `name` as a `T` from `env` gives: the value its
/// text stands for, or why there is none.
pub open spec fn loaded<T: FromText>(name: &'static str, env: Map<Seq<char>, Seq<char>>) -> Result<
    T::V,
    Error,
> {
    if !env.contains_key(name@) {
        Err(Error::EnvVarMissing { name })
    } else {
        match T::parsed(env[name@]) {
            Some(v) => Ok(v),
            None => Err(Error::ParseError { name }),
        }
    }
}

/// Looks up `name` in `env` and reads its text as a `T`.
///
/// Reports the variable as missing where it is not set, and as unparsable
/// where its text is not a `T`.
pub fn load_var<T: FromText>(name: &'static str, env: &Environment) -> (r: Result<T, Error>)
    ensures
        match r {
            Ok(v) => loaded::<T>(name, env@) == Ok::<T::V, Error>(v@),
            Err(e) => loaded::<T>(name, env@) == Err::<T::V, Error>(e),
        },
{
    match env.get(name) {
        None => Err(Error::EnvVarMissing { name }),
        Some(text) => match T::from_text(text) {
            Some(v) => Ok(v),
            None => Err(Error::ParseError { name }),
        },
    }
}

/// A structure that can be constructed from the environment.
///
/// The implementation for a structure with annotated fields is the code that
/// the generator writes: it loads each field with [`load_var`], in declaration
/// order, and hands on the error of the first field that fails.
pub trait Envconfig: Sized {
    /// Constructs the structure from the variables in `env`.
    fn init(env: &Environment) -> Result<Self, Error>;
}

/// What field `i` reports when it is loaded from `env`, or `None` where it
/// loads. `vars` names the variable of each field and `admits(i, text)` says
/// whether `text` is a value of the type of field `i`.
pub open spec fn failure_at(
    vars: Seq<&'static str>,
    env: Map<Seq<char>, Seq<char>>,
    admits: spec_fn(int, Seq<char>) -> bool,
    i: int,
) -> Option<Error> {
    if !env.contains_key(vars[i]@) {
        Some(Error::EnvVarMissing { name: vars[i] })
    } else if !admits(i, env[vars[i]@]) {
        Some(Error::ParseError { name: vars[i] })
    } else {
        None
    }
}

/// What the first field that does not load reports, among the fields from
/// `from` on and in declaration order; `None` where all of them load.
pub open spec fn first_failure(
    vars: Seq<&'static str>,
    env: Map<Seq<char>, Seq<char>>,
    admits: spec_fn(int, Seq<char>) -> bool,
    from: int,
) -> Option<Error>
    decreases vars.len() - from,
{
    if from < 0 || from >= vars.len() {
        None
    } else {
        match failure_at(vars, env, admits, from) {
            Some(e) => Some(e),
            None => first_failure(vars, env, admits, from + 1),
        }
    }
}

/// Whether `r` is what constructing a structure from `env` yields: the
/// failure of the first field that does not load, or else a structure each of
/// whose fields holds the value of its variable. `holds(s, i, text)` says
/// whether field `i` of `s` is the value that `text` stands for.
pub open spec fn constructs<S>(
    vars: Seq<&'static str>,
    env: Map<Seq<char>, Seq<char>>,
    admits: spec_fn(int, Seq<char>) -> bool,
    holds: spec_fn(S, int, Seq<char>) -> bool,
    r: Result<S, Error>,
) -> bool {
    match first_failure(vars, env, admits, 0) {
        Some(e) => r == Err::<S, Error>(e),
        None => r matches Ok(s) && forall|i: int|
            0 <= i < vars.len() ==> holds(s, i, env[(#[trigger] vars[i])@]),
    }
}

/// The fields of a structure, in declaration order: a list of types, each of
/// which can be read from text.
///
/// The empty list is `()`, and `(H, T)` is the list `T` with a field of type
/// `H` before it. The variables of the fields are named by a list of the same
/// shape: `()` for no field, and `(name, names)` for the name of the first
/// field before the names of the others.
pub trait Record: Sized {
    /// The names of the variables, one for each field.
    type Names;

    /// The names of the variables, in declaration order.
    spec fn vars(names: Self::Names) -> Seq<&'static str>;

    /// Whether `text` is a value of the type of field `i`.
    spec fn admits(i: int, text: Seq<char>) -> bool;

    /// Whether field `i` is the value that `text` stands for.
    spec fn holds(self, i: int, text: Seq<char>) -> bool;

    /// Loads each field from its variable, in declaration order, and stops
    /// at the first that fails.
    fn load(names: &Self::Names, env: &Environment) -> (r: Result<Self, Error>)
        ensures
            constructs(
                Self::vars(*names),
                env@,
                |i: int, text: Seq<char>| Self::admits(i, text),
                |s: Self, i: int, text: Seq<char>| s.holds(i, text),
                r,
            ),
    ;
}

impl Record for () {
    type Names = ();

    open spec fn vars(names: ()) -> Seq<&'static str> {
        Seq::empty()
    }

    open spec fn admits(i: int, text: Seq<char>) -> bool {
        false
    }

    open spec fn holds(self, i: int, text: Seq<char>) -> bool {
        false
    }

    fn load(names: &(), env: &Environment) -> (r: Result<(), Error>) {
        Ok(())
    }
}

impl<H: FromText, T: Record> Record for (H, T) {
    type Names = (&'static str, T::Names);

    open spec fn vars(names: (&'static str, T::Names)) -> Seq<&'static str> {
        seq![names.0] + T::vars(names.1)
    }

    open spec fn admits(i: int, text: Seq<char>) -> bool {
        if i == 0 {
            H::parsed(text) is Some
        } else {
            T::admits(i - 1, text)
        }
    }

    open spec fn holds(self, i: int, text: Seq<char>) -> bool {
        if i == 0 {
            H::parsed(text) == Some(self.0@)
        } else {
            self.1.holds(i - 1, text)
        }
    }

    fn load(names: &(&'static str, T::Names), env: &Environment) -> (r: Result<(H, T), Error>) {
        let ghost vars = Self::vars(*names);
        let ghost tail = T::vars(names.1);
        proof {
            assert(vars.subrange(1, vars.len() as int) =~= tail);
            first_failure_of_tail(
                vars,
                env@,
                |i: int, text: Seq<char>| Self::admits(i, text),
                |i: int, text: Seq<char>| T::admits(i, text),
                0,
            );
        }
        let h = load_var::<H>(names.0, env)?;
        let t = T::load(&names.1, env)?;
        Ok((h, t))
    }
}

/// The fields after the first fail as the list without the first does.
proof fn first_failure_of_tail(
    vars: Seq<&'static str>,
    env: Map<Seq<char>, Seq<char>>,
    all: spec_fn(int, Seq<char>) -> bool,
    rest: spec_fn(int, Seq<char>) -> bool,
    k: int,
)
    requires
        vars.len() >= 1,
        0 <= k,
        forall|i: int, text: Seq<char>| 0 <= i ==> all(i + 1, text) == #[trigger] rest(i, text),
    ensures
        first_failure(vars, env, all, k + 1) == first_failure(
            vars.subrange(1, vars.len() as int),
            env,
            rest,
            k,
        ),
    decreases vars.len() - k,
{
    if k + 1 < vars.len() {
        first_failure_of_tail(vars, env, all, rest, k + 1);
    }
}

/// Fields that load are passed over: the first failure from `from` on is the
/// first failure from `i` on.
proof fn first_failure_skips(
    vars: Seq<&'static str>,
    env: Map<Seq<char>, Seq<char>>,
    admits: spec_fn(int, Seq<char>) -> bool,
    from: int,
    i: int,
)
    requires
        0 <= from <= i <= vars.len(),
        forall|j: int| from <= j < i ==> failure_at(vars, env, admits, j) is None,
    ensures
        first_failure(vars, env, admits, from) == first_failure(vars, env, admits, i),
    decreases i - from,
{
    if from < i {
        first_failure_skips(vars, env, admits, from + 1, i);
    }
}

/// Where the variable of a field is not set, and every field declared before
/// it loads, construction reports that variable as missing.
pub proof fn missing_variable_is_reported<S>(
    vars: Seq<&'static str>,
    env: Map<Seq<char>, Seq<char>>,
    admits: spec_fn(int, Seq<char>) -> bool,
    holds: spec_fn(S, int, Seq<char>) -> bool,
    r: Result<S, Error>,
    i: int,
)
    requires
        constructs(vars, env, admits, holds, r),
        0 <= i < vars.len(),
        !env.contains_key(vars[i]@),
        forall|j: int|
            0 <= j < i ==> env.contains_key((#[trigger] vars[j])@) && admits(j, env[vars[j]@]),
    ensures
        r == Err::<S, Error>(Error::EnvVarMissing { name: vars[i] }),
{
    first_failure_skips(vars, env, admits, 0, i);
}

/// Where the variable of a field is set to a text that is not a value of the
/// field's type, and every field declared before it loads, construction
/// reports that variable as unparsable.
pub proof fn unparsable_variable_is_reported<S>(
    vars: Seq<&'static str>,
    env: Map<Seq<char>, Seq<char>>,
    admits: spec_fn(int, Seq<char>) -> bool,
    holds: spec_fn(S, int, Seq<char>) -> bool,
    r: Result<S, Error>,
    i: int,
)
    requires
        constructs(vars, env, admits, holds, r),
        0 <= i < vars.len(),
        env.contains_key(vars[i]@),
        !admits(i, env[vars[i]@]),
        forall|j: int|
            0 <= j < i ==> env.contains_key((#[trigger] vars[j])@) && admits(j, env[vars[j]@]),
    ensures
        r == Err::<S, Error>(Error::ParseError { name: vars[i] }),
{
    first_failure_skips(vars, env, admits, 0, i);
}

/// Where every variable is set to a value of its field's type, construction
/// succeeds, and each field of the structure holds the value of its variable.
pub proof fn loaded_fields_are_constructed<S>(
    vars: Seq<&'static str>,
    env: Map<Seq<char>, Seq<char>>,
    admits: spec_fn(int, Seq<char>) -> bool,
    holds: spec_fn(S, int, Seq<char>) -> bool,
    r: Result<S, Error>,
)
    requires
        constructs(vars, env, admits, holds, r),
        forall|j: int|
            0 <= j < vars.len() ==> env.contains_key((#[trigger] vars[j])@) && admits(
                j,
                env[vars[j]@],
            ),
    ensures
        r is Ok,
        forall|i: int| 0 <= i < vars.len() ==> holds(r->Ok_0, i, env[(#[trigger] vars[i])@]),
{
    first_failure_skips(vars, env, admits, 0, vars.len() as int);
}

} // verus!
