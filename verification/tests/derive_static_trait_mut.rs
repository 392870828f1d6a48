// The expansion the generator plans for
// `struct Test(&'static dyn TA, &'static dyn TB);` with the mutable marker,
// written out; whole trait-object references are swapped through the
// mutable accessors.

use typemap_meta::{fetch, fetch_mut, Get, GetMut};

trait TA {
    fn value_a(&self) -> i32;
}

#[derive(Debug, PartialEq)]
struct A {
    v: i32,
}

impl TA for A {
    fn value_a(&self) -> i32 {
        self.v
    }
}

trait TB {
    fn value_b(&self) -> f32;
}

#[derive(Debug, PartialEq)]
struct B {
    v: f32,
}

impl TB for B {
    fn value_b(&self) -> f32 {
        self.v
    }
}

struct Test(&'static dyn TA, &'static dyn TB);

impl Get<&'static dyn TA> for Test {
    fn get(&self) -> &&'static dyn TA {
        &self.0
    }
}

impl Get<&'static dyn TB> for Test {
    fn get(&self) -> &&'static dyn TB {
        &self.1
    }
}

impl GetMut<&'static dyn TA> for Test {
    fn get_mut(&mut self) -> &mut &'static dyn TA {
        &mut self.0
    }
}

impl GetMut<&'static dyn TB> for Test {
    fn get_mut(&mut self) -> &mut &'static dyn TB {
        &mut self.1
    }
}

#[test]
fn derive_static_trait_mut() {
    let a: &'static dyn TA = &A { v: 1 };
    let b: &'static dyn TB = &B { v: 2.0 };
    let t = Test(a, b);
    assert_eq!(fetch::<&'static dyn TA, _>(&t).value_a(), 1);
    assert_eq!(fetch::<&'static dyn TB, _>(&t).value_b(), 2.0);

    let mut t = t;
    let c: &'static dyn TA = &A { v: 3 };
    let d: &'static dyn TB = &B { v: 4.0 };

    *fetch_mut::<&'static dyn TA, _>(&mut t) = c;
    *fetch_mut::<&'static dyn TB, _>(&mut t) = d;

    assert_eq!(fetch::<&'static dyn TA, _>(&t).value_a(), 3);
    assert_eq!(fetch::<&'static dyn TB, _>(&t).value_b(), 4.0);
}
