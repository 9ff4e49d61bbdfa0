use algorand_compounder::payment::payment_note;

#[test]
fn note_names_the_count() {
    assert_eq!(payment_note(0), "This was an automated payment for compounding count:0");
    assert_eq!(payment_note(17), "This was an automated payment for compounding count:17");
    assert_eq!(
        payment_note(u64::MAX),
        "This was an automated payment for compounding count:18446744073709551615"
    );
}
