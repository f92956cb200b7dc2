use anyhow::{Mut, Own, Ref};

#[test]
fn handles_share_one_payload() {
    let mut own = Own::new(Box::new(5u32));
    assert_eq!(*own.by_ref().deref(), 5);
    *own.by_mut().deref_mut() = 6;
    assert_eq!(*own.by_ref().deref(), 6);
    let own = own.cast::<u32>();
    assert_eq!(*own.boxed(), 6);
}

#[test]
fn borrowed_handles() {
    let mut x = 1i64;
    {
        let m = Mut::new(&mut x).cast::<i64>();
        *m.deref_mut() = 2;
    }
    let r = Ref::new(&x);
    let r2 = r;
    assert_eq!(*r.cast::<i64>().deref(), 2);
    assert_eq!(*r2.deref(), 2);
    let mut y = 3u8;
    let shared = Mut::new(&mut y).by_ref();
    assert_eq!(*shared.deref(), 3);
}
