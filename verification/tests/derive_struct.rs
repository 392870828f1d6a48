// The expansion the generator plans for `struct Test(A, B);` over two
// distinct record types, written out.

use typemap_meta::{fetch, Get};

#[derive(Debug, PartialEq)]
struct A {}

#[derive(Debug, PartialEq)]
struct B {}

struct Test(A, B);

impl Get<A> for Test {
    fn get(&self) -> &A {
        &self.0
    }
}

impl Get<B> for Test {
    fn get(&self) -> &B {
        &self.1
    }
}

#[test]
fn derive_struct() {
    let t = Test(A {}, B {});
    assert_eq!(*fetch::<A, _>(&t), A {});
}
