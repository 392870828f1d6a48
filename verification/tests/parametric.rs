// One set of capability implementations over a generic aggregate, written
// as the generator plans them, serves distinct concrete instantiations of
// the aggregate's parameters alike.

use typemap_meta::{fetch, fetch_mut, Get, GetMut};

struct Pair<T>(Vec<T>, u32);

impl<T> Get<Vec<T>> for Pair<T> {
    fn get(&self) -> &Vec<T> {
        &self.0
    }
}

impl<T> Get<u32> for Pair<T> {
    fn get(&self) -> &u32 {
        &self.1
    }
}

impl<T> GetMut<Vec<T>> for Pair<T> {
    fn get_mut(&mut self) -> &mut Vec<T> {
        &mut self.0
    }
}

impl<T> GetMut<u32> for Pair<T> {
    fn get_mut(&mut self) -> &mut u32 {
        &mut self.1
    }
}

#[test]
fn one_generation_serves_every_instantiation() {
    let s = Pair(vec!["hello".to_string()], 5);
    assert_eq!(fetch::<Vec<String>, _>(&s)[0], "hello");
    assert_eq!(*fetch::<u32, _>(&s), 5);

    let b = Pair(vec![true, false], 9);
    assert_eq!(fetch::<Vec<bool>, _>(&b)[0], true);
    assert_eq!(*fetch::<u32, _>(&b), 9);

    let mut b = b;
    *fetch_mut::<Vec<bool>, _>(&mut b) = vec![false];
    *fetch_mut::<u32, _>(&mut b) = 11;
    assert_eq!(fetch::<Vec<bool>, _>(&b)[0], false);
    assert_eq!(*fetch::<u32, _>(&b), 11);
}
