// The expansion the generator plans for
// `struct Test(&'static dyn TA, &'static dyn TB);`, written out.

use typemap_meta::{fetch, Get};

trait TA {
    fn value_a(&self) -> i32;
}

#[derive(Debug, PartialEq)]
struct A {
    v: i32,
}

impl TA for A {
    fn value_a(&self) -> i32 {
        self.v
    }
}

trait TB {
    fn value_b(&self) -> f32;
}

#[derive(Debug, PartialEq)]
struct B {
    v: f32,
}

impl TB for B {
    fn value_b(&self) -> f32 {
        self.v
    }
}

struct Test(&'static dyn TA, &'static dyn TB);

impl Get<&'static dyn TA> for Test {
    fn get(&self) -> &&'static dyn TA {
        &self.0
    }
}

impl Get<&'static dyn TB> for Test {
    fn get(&self) -> &&'static dyn TB {
        &self.1
    }
}

#[test]
fn derive_static_trait() {
    let a: &'static dyn TA = &A { v: 1 };
    let b: &'static dyn TB = &B { v: 2.0 };
    let t = Test(a, b);
    assert_eq!(fetch::<&'static dyn TA, _>(&t).value_a(), 1);
    assert_eq!(fetch::<&'static dyn TB, _>(&t).value_b(), 2.0);
}
