use chain_link::Cascade;
use chain_link::Chain;
use chain_link::InRange;
use chain_link::L;
use chain_link::Length;

/// Each link in a chain has input corresponding to the lower link's output.
/// Cascade is: -1.5f32 -> -1i32 -> 4_294_967_295u32 -> "4,294,967,295".
#[test]
fn chain_link_cascade() {
    struct Pipeline;

    impl Length for Pipeline {
        type Len = L<3>;
    }

    impl InRange<0> for Pipeline {
        fn range_guard() {}
    }
    impl InRange<1> for Pipeline {
        fn range_guard() {}
    }
    impl InRange<2> for Pipeline {
        fn range_guard() {}
    }

    // `chain_spec` is each stage's specification; outside verified code it
    // is never called, but the trait asks for it, so the stages restate
    // their computation there.
    impl Chain<0> for Pipeline {
        type In = f32;
        type Out = i32;

        fn chain_spec(input: f32) -> i32 {
            input as i32
        }

        fn chain(input: f32) -> i32 {
            assert_eq!(input, -1.5);
            input as i32
        }
    }

    impl Chain<1> for Pipeline {
        type In = i32;
        type Out = u32;

        fn chain_spec(input: i32) -> u32 {
            input as u32
        }

        fn chain(input: i32) -> u32 {
            assert_eq!(input, -1);
            input as u32
        }
    }

    impl Chain<2> for Pipeline {
        type In = u32;
        type Out = String;

        fn chain_spec(input: u32) -> String {
            let mut output = String::new();
            let mut n = input;
            while n >= 1_000 {
                output = format!(",{:03}{}", n % 1_000, output);
                n /= 1_000;
            }
            format!("{n}{}", output)
        }

        fn chain(input: u32) -> String {
            assert_eq!(input, u32::MAX);
            let mut output = String::new();
            let mut n = input;
            while n >= 1_000 {
                output = format!(",{:03}{}", n % 1_000, output);
                n /= 1_000;
            }
            format!("{n}{}", output)
        }
    }

    let input = -1.5;
    let actual = Pipeline::cascade(input);
    let expected = "4,294,967,295";
    assert_eq!(actual, expected);
}

#[test]
fn portability_example() {
    // a 3rd party crate can define the following:
    pub struct NamesOf<T>(T);
    pub trait Name<const N: usize>
    where
        // doing this makes it impossible for the user to
        // impl Length<Len = L<4>> then subsequently impl
        // Name<N> for any N >= 4, keeping it InRange
        Self: InRange<N>,
    {
        const NAME: &'static str;
    }
    impl<T: Length> Length for NamesOf<T> {
        type Len = T::Len;
    }
    impl<const N: usize, T: InRange<N>> InRange<N> for NamesOf<T> {
        fn range_guard() {}
    }
    impl<const N: usize, T: Name<N>> Chain<N> for NamesOf<T>
    where
        Self: InRange<N>,
    {
        type In = String;
        type Out = String;

        fn chain_spec(input: String) -> String {
            format!("{}, {}", input, T::NAME)
        }

        fn chain(input: String) -> String {
            format!("{}, {}", input, T::NAME)
        }
    }

    // the user implements Name<#> for their own custom struct
    // these must be implemented for all N in range of 0..Len,
    // or Cascade will not get implemented on NamesOf<Beatles>
    struct Beatles;
    impl InRange<0> for Beatles {
        fn range_guard() {}
    }
    impl InRange<1> for Beatles {
        fn range_guard() {}
    }
    impl InRange<2> for Beatles {
        fn range_guard() {}
    }
    impl InRange<3> for Beatles {
        fn range_guard() {}
    }
    impl Name<0> for Beatles {
        const NAME: &'static str = "John Lennon";
    }
    impl Name<1> for Beatles {
        const NAME: &'static str = "Paul McCartney";
    }
    impl Name<2> for Beatles {
        const NAME: &'static str = "George Harrison";
    }
    impl Name<3> for Beatles {
        const NAME: &'static str = "Ringo Starr";
    }

    // Length is user-implemented for the Beatles struct
    // and auto-impls the length for NamesOf<Beatles>
    impl Length for Beatles {
        type Len = L<4>;
    }
    assert_eq!(Beatles::len(), 4);
    assert_eq!(NamesOf::<Beatles>::len(), 4);

    let header = "Names of the Beatles: ".to_owned();
    let result = NamesOf::<Beatles>::cascade(header);
    assert_eq!(
        result,
        "Names of the Beatles: , John Lennon, Paul McCartney, George Harrison, Ringo Starr"
    );
}
