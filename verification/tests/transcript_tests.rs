use ark_segmentlookup::scalar::Scalar;
use ark_segmentlookup::transcript::{Transcript, LABEL_ALPHA, LABEL_BETA};

type Fr = ark_bn254::Fr;

#[test]
fn test_transcript_is_deterministic() {
    let mut a = Transcript::new();
    let mut b = Transcript::new();
    let value = Scalar { inner: Fr::from(42u64) };
    a.append_scalar(LABEL_ALPHA, &value);
    b.append_scalar(LABEL_ALPHA, &value);
    let ca = a.get_and_append_challenge(LABEL_BETA);
    let cb = b.get_and_append_challenge(LABEL_BETA);
    assert_eq!(ca.inner, cb.inner);

    // A different appended value changes the derived challenge.
    let mut c = Transcript::new();
    c.append_scalar(LABEL_ALPHA, &Scalar { inner: Fr::from(43u64) });
    let cc = c.get_and_append_challenge(LABEL_BETA);
    assert_ne!(ca.inner, cc.inner);

    // So does the order of the calls alone.
    let mut d = Transcript::new();
    let d1 = d.get_and_append_challenge(LABEL_ALPHA);
    let d2 = d.get_and_append_challenge(LABEL_BETA);
    let mut e = Transcript::new();
    let e1 = e.get_and_append_challenge(LABEL_BETA);
    let e2 = e.get_and_append_challenge(LABEL_ALPHA);
    assert_ne!((d1.inner, d2.inner), (e1.inner, e2.inner));
}
