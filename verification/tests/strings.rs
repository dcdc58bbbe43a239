use spirv_cross2::context::ContextRoot;
use spirv_cross2::error::NulError;
use spirv_cross2::string::{ContextPointer, ContextStr, MaybeOwnedCString};
use spirv_cross2::ToStatic;

struct LifetimeContext(Vec<u8>);

impl LifetimeContext {
    pub fn new() -> Self {
        Self(String::from("hello").into_bytes())
    }

    fn address(&self) -> usize {
        0x7000
    }
}

struct LifetimeTest<'a>(ContextRoot, &'a LifetimeContext);

impl<'a> LifetimeTest<'a> {
    pub fn get(&self) -> ContextStr<'a> {
        ContextStr::from_ptr(self.1.address(), &self.1 .0, self.0)
    }

    pub fn set(&mut self, cstr: &ContextStr<'a>) {
        println!("{:?}", cstr.to_cstring_ptr().unwrap().as_ptr())
    }
}

#[test]
fn test_string() {
    let lc = LifetimeContext::new();
    let ctx = ContextRoot::RefCounted(0x1000);

    let mut lt = LifetimeTest(ctx, &lc);

    let cstr = lt.get();
    lt.set(&cstr);

    drop(lt);

    assert_eq!("hello", cstr.as_ref());
    println!("{}", cstr.to_string());
}

#[test]
fn foreign_string_goes_back_as_its_own_pointer() {
    let bytes = b"main";
    let root = ContextRoot::Borrowed(0x1000);
    let s = ContextStr::from_ptr(0x7000, bytes, root);
    assert!(s.is_pointer_backed());
    assert_eq!(s.as_str(), "main");
    let c = s.to_cstring_ptr().unwrap();
    assert_eq!(c, MaybeOwnedCString::Borrowed(ContextPointer { pointer: 0x7000, context: root }));
    assert_eq!(c.as_ptr(), Some(0x7000));
    assert_eq!(c.as_bytes_with_nul(), None);
}

#[test]
fn foreign_string_of_several_bytes_per_character_keeps_its_pointer() {
    let bytes = "gr\u{fc}\u{df}e \u{4e16}".as_bytes();
    let s = ContextStr::from_ptr(0x7100, bytes, ContextRoot::RefCounted(0x1000));
    assert!(s.is_pointer_backed());
    assert_eq!(s.as_str(), "gr\u{fc}\u{df}e \u{4e16}");
    assert_eq!(s.to_cstring_ptr().unwrap().as_ptr(), Some(0x7100));
}

#[test]
fn empty_foreign_string_keeps_its_pointer() {
    let s = ContextStr::from_ptr(0x7200, b"", ContextRoot::Borrowed(0x1000));
    assert!(s.is_pointer_backed());
    assert_eq!(s.as_str(), "");
    assert_eq!(s.to_cstring_ptr().unwrap().as_ptr(), Some(0x7200));
}

#[test]
fn ill_formed_foreign_string_becomes_an_owned_copy() {
    let bytes = [b'a', 0xff, b'b'];
    let s = ContextStr::from_ptr(0x7000, &bytes, ContextRoot::Borrowed(0x1000));
    assert!(!s.is_pointer_backed());
    assert_eq!(s.as_str(), "a\u{fffd}b");
    let c = s.to_cstring_ptr().unwrap();
    assert_eq!(c.as_ptr(), None);
    assert_eq!(c, MaybeOwnedCString::Owned("a\u{fffd}b\0".as_bytes().to_vec()));
}

#[test]
fn text_of_the_caller_is_copied_and_terminated() {
    let s = ContextStr::from_str("hello");
    assert!(!s.is_pointer_backed());
    let c = s.to_cstring_ptr().unwrap();
    assert_eq!(c, MaybeOwnedCString::Owned(b"hello\0".to_vec()));
    assert_eq!(c.as_ptr(), None);
    assert_eq!(c.as_bytes_with_nul(), Some(&b"hello\0"[..]));

    let s = ContextStr::from_string(String::from("main"));
    assert!(!s.is_pointer_backed());
    assert_eq!(s.to_cstring_ptr(), Ok(MaybeOwnedCString::Owned(b"main\0".to_vec())));

    let s = ContextStr::from_str("");
    assert_eq!(s.to_cstring_ptr(), Ok(MaybeOwnedCString::Owned(vec![0])));
}

#[test]
fn embedded_nul_is_an_error() {
    let s = ContextStr::from_string(String::from("ab\0cd"));
    assert_eq!(s.to_cstring_ptr(), Err(NulError { nul_position: 2 }));
    let s = ContextStr::from_str("\0");
    assert_eq!(s.to_cstring_ptr(), Err(NulError { nul_position: 0 }));
    let s = ContextStr::from_str("a\0b\0");
    assert_eq!(s.to_cstring_ptr(), Err(NulError { nul_position: 1 }));
    let s = ContextStr::from_str("\u{fc}\0");
    assert_eq!(s.to_cstring_ptr(), Err(NulError { nul_position: 2 }));
}

#[test]
fn equality_goes_by_the_text() {
    let foreign = ContextStr::from_ptr(0x7000, b"main", ContextRoot::Borrowed(0x1000));
    let elsewhere = ContextStr::from_ptr(0x7100, b"main", ContextRoot::RefCounted(0x2000));
    let borrowed = ContextStr::from_str("main");
    let owned = ContextStr::from_string(String::from("main"));
    let other = ContextStr::from_str("mainly");
    let same_length = ContextStr::from_str("maim");
    assert!(foreign == elsewhere);
    assert!(foreign == borrowed);
    assert!(borrowed == owned);
    assert!(foreign != other);
    assert!(other != foreign);
    assert!(borrowed != same_length);
    assert!(ContextStr::from_str("") == ContextStr::from_string(String::new()));
    assert!(foreign.eq_str("main"));
    assert!(!foreign.eq_str("Main"));
    assert!(owned.eq_string(&String::from("main")));
    assert!(!owned.eq_string(&String::from("")));
}

#[test]
fn clone_keeps_text_and_pointer() {
    let foreign = ContextStr::from_ptr(0x7000, b"main", ContextRoot::Borrowed(0x1000));
    let copy = foreign.clone();
    assert!(copy.is_pointer_backed());
    assert_eq!(copy.as_str(), "main");
    assert_eq!(copy.to_cstring_ptr(), foreign.to_cstring_ptr());
    let owned = ContextStr::from_string(String::from("x"));
    let copy = owned.clone();
    assert!(!copy.is_pointer_backed());
    assert_eq!(copy.as_str(), "x");
}

#[test]
fn static_copy_keeps_the_text_and_no_pointer() {
    let detached: ContextStr<'static> = {
        let bytes = b"main".to_vec();
        let foreign = ContextStr::from_ptr(0x7000, &bytes, ContextRoot::Borrowed(0x1000));
        foreign.to_static()
    };
    assert_eq!(detached.as_str(), "main");
    assert!(!detached.is_pointer_backed());
    assert_eq!(detached.to_cstring_ptr(), Ok(MaybeOwnedCString::Owned(b"main\0".to_vec())));
}

#[test]
fn order_goes_by_the_text() {
    let foreign = ContextStr::from_ptr(0x7000, b"main", ContextRoot::Borrowed(0x1000));
    let owned = ContextStr::from_string(String::from("main"));
    let longer = ContextStr::from_str("mainly");
    let earlier = ContextStr::from_str("mail");
    let empty = ContextStr::from_str("");
    assert_eq!(foreign.partial_cmp(&owned), Some(std::cmp::Ordering::Equal));
    assert_eq!(foreign.partial_cmp(&longer), Some(std::cmp::Ordering::Less));
    assert_eq!(longer.partial_cmp(&foreign), Some(std::cmp::Ordering::Greater));
    assert_eq!(earlier.partial_cmp(&foreign), Some(std::cmp::Ordering::Less));
    assert_eq!(foreign.partial_cmp(&earlier), Some(std::cmp::Ordering::Greater));
    assert_eq!(empty.partial_cmp(&foreign), Some(std::cmp::Ordering::Less));
    assert_eq!(empty.partial_cmp(&empty), Some(std::cmp::Ordering::Equal));
    assert!(earlier < foreign);
    assert!(foreign <= owned);
    assert!(longer > owned);
    assert_eq!(
        ContextStr::from_str("z").partial_cmp(&ContextStr::from_str("\u{e9}")),
        "z".partial_cmp("\u{e9}")
    );
}

#[test]
fn decoded_text_keeps_the_pointer_only_if_borrowed() {
    let root = ContextRoot::Borrowed(0x1000);
    let kept = ContextStr::from_decoded(0x7000, std::borrow::Cow::Borrowed("main"), root);
    assert!(kept.is_pointer_backed());
    assert_eq!(kept.as_str(), "main");
    assert_eq!(kept.to_cstring_ptr().unwrap().as_ptr(), Some(0x7000));
    let copied =
        ContextStr::from_decoded(0x7000, std::borrow::Cow::Owned(String::from("main")), root);
    assert!(!copied.is_pointer_backed());
    assert_eq!(copied.as_str(), "main");
    assert_eq!(copied.to_cstring_ptr().unwrap().as_ptr(), None);
}

#[test]
fn nul_character_is_the_only_one_with_a_zero_byte() {
    for text in ["\u{100}", "\u{800}\u{10000}", "\u{7f}\u{80}\u{ffff}\u{10ffff}"] {
        let mut expected = text.as_bytes().to_vec();
        expected.push(0);
        assert_eq!(
            ContextStr::from_str(text).to_cstring_ptr(),
            Ok(MaybeOwnedCString::Owned(expected))
        );
    }
}
