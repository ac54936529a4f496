use mint_watch::classifier::{classify, first_recognized, InstructionKind};

#[test]
fn classify_recognizes_the_three_markers() {
    assert_eq!(classify("Program log: Instruction: Create"), InstructionKind::Create);
    assert_eq!(classify("Program log: Instruction: Buy"), InstructionKind::Buy);
    assert_eq!(classify("Program log: Instruction: Sell"), InstructionKind::Sell);
}

#[test]
fn classify_is_exact() {
    assert_eq!(classify(""), InstructionKind::Other);
    assert_eq!(classify("Program log: Instruction: Buy "), InstructionKind::Other);
    assert_eq!(classify(" Program log: Instruction: Buy"), InstructionKind::Other);
    assert_eq!(classify("program log: instruction: buy"), InstructionKind::Other);
    assert_eq!(classify("Program log: Instruction: BuyNow"), InstructionKind::Other);
    assert_eq!(classify("Instruction: Buy"), InstructionKind::Other);
    assert_eq!(classify("Program log: Instruction: Transfer"), InstructionKind::Other);
}

#[test]
fn first_recognized_stops_at_the_first_marker() {
    let lines = vec![
        "Program 6EF8rrecthR5Dkzon8Nwu78hRvfCKubJ14M5uBEwF6P invoke [1]".to_string(),
        "Program log: Instruction: Sell".to_string(),
        "Program log: Instruction: Buy".to_string(),
        "Program log: Instruction: Create".to_string(),
    ];
    assert_eq!(first_recognized(&lines), InstructionKind::Sell);
}

#[test]
fn first_recognized_finds_nothing_in_unrecognized_lines() {
    assert_eq!(first_recognized(&Vec::new()), InstructionKind::Other);
    let lines = vec!["Program log: hello".to_string(), "Program consumed 5 units".to_string()];
    assert_eq!(first_recognized(&lines), InstructionKind::Other);
}
