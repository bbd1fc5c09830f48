//! Phantom-typed fact dispensers: a zero-sized `Fact<T>` hands out short
//! facts about the type `T`, where the set of facts is fixed per type.

use vstd::prelude::*;

verus! {

/// Types that can provide facts about themselves.
pub trait HasFacts {
    /// The facts, as character sequences, in their fixed order.
    spec fn spec_facts() -> Seq<Seq<char>>;

    /// All facts for this type, in order.
    fn facts() -> (r: Vec<&'static str>)
        ensures
            r@.map_values(|s: &'static str| s@) == Self::spec_facts(),
    ;
}

/// A zero-sized dispenser of facts about `T`.
#[derive(Debug, Default, PartialEq, Eq, Hash)]
pub struct Fact<T> {
    _phantom: core::marker::PhantomData<T>,
}

impl<T> Clone for Fact<T> {
    fn clone(&self) -> (r: Self)
        ensures
            r == *self,
    {
        Fact { _phantom: self._phantom }
    }
}

impl<T> Copy for Fact<T> {

}

impl<T> Fact<T> where T: HasFacts {
    /// Creates a new dispenser; only compiles when `T` declares facts.
    pub fn new() -> (r: Self) {
        Fact { _phantom: core::marker::PhantomData }
    }

    /// A fact about `T`: the first of the list.
    pub fn fact(&self) -> (r: &'static str)
        requires
            T::spec_facts().len() > 0,
        ensures
            r@ == T::spec_facts()[0],
    {
        let all = T::facts();
        proof {
            assert(all@.map_values(|s: &'static str| s@)[0] == T::spec_facts()[0]);
        }
        all[0]
    }

    /// How many facts `T` declares.
    pub fn fact_count() -> (r: usize)
        ensures
            r == T::spec_facts().len(),
    {
        let all = T::facts();
        proof {
            assert(all@.map_values(|s: &'static str| s@).len() == T::spec_facts().len());
        }
        all.len()
    }

    /// Every fact `T` declares, in order.
    pub fn all_facts() -> (r: Vec<&'static str>)
        ensures
            r@.map_values(|s: &'static str| s@) == T::spec_facts(),
    {
        T::facts()
    }
}

impl<T> HasFacts for Vec<T> {
    open spec fn spec_facts() -> Seq<Seq<char>> {
        seq![
            "Vec is heap-allocated"@,
            "Vec may re-allocate on growing"@,
            "Vec has O(1) push when capacity is available"@,
            "Vec has O(1) indexed access"@,
            "Vec stores length and capacity separately"@,
            "Vec deallocates on drop"@,
            "Vec uses the global allocator by default"@,
        ]
    }

    fn facts() -> (r: Vec<&'static str>) {
        let mut v: Vec<&'static str> = Vec::new();
        v.push("Vec is heap-allocated");
        v.push("Vec may re-allocate on growing");
        v.push("Vec has O(1) push when capacity is available");
        v.push("Vec has O(1) indexed access");
        v.push("Vec stores length and capacity separately");
        v.push("Vec deallocates on drop");
        v.push("Vec uses the global allocator by default");
        proof {
            assert(v@.map_values(|s: &'static str| s@) =~= Self::spec_facts());
        }
        v
    }
}

impl HasFacts for String {
    open spec fn spec_facts() -> Seq<Seq<char>> {
        seq![
            "String is a Vec<u8> wrapper with UTF-8 guarantee"@,
            "String is heap-allocated"@,
            "String may re-allocate when growing"@,
            "String validates UTF-8 on construction"@,
            "String uses 3 words of stack space (ptr, len, cap)"@,
        ]
    }

    fn facts() -> (r: Vec<&'static str>) {
        let mut v: Vec<&'static str> = Vec::new();
        v.push("String is a Vec<u8> wrapper with UTF-8 guarantee");
        v.push("String is heap-allocated");
        v.push("String may re-allocate when growing");
        v.push("String validates UTF-8 on construction");
        v.push("String uses 3 words of stack space (ptr, len, cap)");
        proof {
            assert(v@.map_values(|s: &'static str| s@) =~= Self::spec_facts());
        }
        v
    }
}

impl<T> HasFacts for Option<T> {
    open spec fn spec_facts() -> Seq<Seq<char>> {
        seq![
            "Option uses null pointer optimization for some types"@,
            "Option<&T> has the same size as &T"@,
            "Option is an enum with two variants: Some and None"@,
            "Option<Box<T>> has no overhead vs Box<T>"@,
            "Option implements many combinator methods (map, and_then, etc.)"@,
        ]
    }

    fn facts() -> (r: Vec<&'static str>) {
        let mut v: Vec<&'static str> = Vec::new();
        v.push("Option uses null pointer optimization for some types");
        v.push("Option<&T> has the same size as &T");
        v.push("Option is an enum with two variants: Some and None");
        v.push("Option<Box<T>> has no overhead vs Box<T>");
        v.push("Option implements many combinator methods (map, and_then, etc.)");
        proof {
            assert(v@.map_values(|s: &'static str| s@) =~= Self::spec_facts());
        }
        v
    }
}

impl<T, E> HasFacts for Result<T, E> {
    open spec fn spec_facts() -> Seq<Seq<char>> {
        seq![
            "Result is an enum representing success or failure"@,
            "Result should be used instead of exceptions in Rust"@,
            "Result implements the Try trait for the ? operator"@,
            "Result can be pattern matched ergonomically"@,
            "Result size is max(size_of::<T>(), size_of::<E>()) + discriminant"@,
        ]
    }

    fn facts() -> (r: Vec<&'static str>) {
        let mut v: Vec<&'static str> = Vec::new();
        v.push("Result is an enum representing success or failure");
        v.push("Result should be used instead of exceptions in Rust");
        v.push("Result implements the Try trait for the ? operator");
        v.push("Result can be pattern matched ergonomically");
        v.push("Result size is max(size_of::<T>(), size_of::<E>()) + discriminant");
        proof {
            assert(v@.map_values(|s: &'static str| s@) =~= Self::spec_facts());
        }
        v
    }
}

impl<T> HasFacts for Box<T> {
    open spec fn spec_facts() -> Seq<Seq<char>> {
        seq![
            "Box provides heap allocation for a single value"@,
            "Box has the same size as a raw pointer"@,
            "Box provides unique ownership (no reference counting)"@,
            "Box deallocates when dropped"@,
            "Box can store unsized types (like trait objects)"@,
        ]
    }

    fn facts() -> (r: Vec<&'static str>) {
        let mut v: Vec<&'static str> = Vec::new();
        v.push("Box provides heap allocation for a single value");
        v.push("Box has the same size as a raw pointer");
        v.push("Box provides unique ownership (no reference counting)");
        v.push("Box deallocates when dropped");
        v.push("Box can store unsized types (like trait objects)");
        proof {
            assert(v@.map_values(|s: &'static str| s@) =~= Self::spec_facts());
        }
        v
    }
}

impl<T> HasFacts for std::rc::Rc<T> {
    open spec fn spec_facts() -> Seq<Seq<char>> {
        seq![
            "Rc provides shared ownership via reference counting"@,
            "Rc is not thread-safe (use Arc for that)"@,
            "Rc has weak reference support"@,
            "Rc has overhead of two reference counts (strong + weak)"@,
            "Rc uses non-atomic reference counting"@,
        ]
    }

    fn facts() -> (r: Vec<&'static str>) {
        let mut v: Vec<&'static str> = Vec::new();
        v.push("Rc provides shared ownership via reference counting");
        v.push("Rc is not thread-safe (use Arc for that)");
        v.push("Rc has weak reference support");
        v.push("Rc has overhead of two reference counts (strong + weak)");
        v.push("Rc uses non-atomic reference counting");
        proof {
            assert(v@.map_values(|s: &'static str| s@) =~= Self::spec_facts());
        }
        v
    }
}

impl<T> HasFacts for std::sync::Arc<T> {
    open spec fn spec_facts() -> Seq<Seq<char>> {
        seq![
            "Arc provides thread-safe shared ownership"@,
            "Arc uses atomic reference counting"@,
            "Arc is Send + Sync when T: Send + Sync"@,
            "Arc has more overhead than Rc due to atomic operations"@,
            "Arc is essential for concurrent Rust programming"@,
        ]
    }

    fn facts() -> (r: Vec<&'static str>) {
        let mut v: Vec<&'static str> = Vec::new();
        v.push("Arc provides thread-safe shared ownership");
        v.push("Arc uses atomic reference counting");
        v.push("Arc is Send + Sync when T: Send + Sync");
        v.push("Arc has more overhead than Rc due to atomic operations");
        v.push("Arc is essential for concurrent Rust programming");
        proof {
            assert(v@.map_values(|s: &'static str| s@) =~= Self::spec_facts());
        }
        v
    }
}

} // verus!
