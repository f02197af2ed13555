use contract_descriptor::category::{ContractType, OuterCategory, OuterType, ParseError};
use contract_descriptor::text::{decimal_text, same_text};
use contract_descriptor::weighing::{weigh_policy, Weighing};

#[test]
fn contract_types_have_names() {
    assert_eq!(ContractType::SingleSig.to_text(), "singlesig");
    assert_eq!(ContractType::MultiSig.to_text(), "multisig");
    assert_eq!(ContractType::Script.to_text(), "script");
}

#[test]
fn contract_type_names_read_back() {
    for t in [ContractType::SingleSig, ContractType::MultiSig, ContractType::Script] {
        assert_eq!(ContractType::from_str(&t.to_text()), Ok(t));
    }
}

#[test]
fn contract_type_case_and_space_do_not_matter() {
    assert_eq!(ContractType::from_str(" \tMultiSig\r\n"), Ok(ContractType::MultiSig));
    assert_eq!(ContractType::from_str("SCRIPT"), Ok(ContractType::Script));
    assert_eq!(ContractType::from_str("\u{3000}singleSIG\u{a0}"), Ok(ContractType::SingleSig));
}

#[test]
fn unknown_contract_type_is_reported_lowered_and_trimmed() {
    assert_eq!(
        ContractType::from_str("  Multi Sig "),
        Err(ParseError::UnrecognizedDescriptorName("multi sig".to_string()))
    );
    assert_eq!(
        ContractType::from_str(" \u{c4}\u{3a9} "),
        Err(ParseError::UnrecognizedDescriptorName("\u{e4}\u{3c9}".to_string()))
    );
    assert_eq!(
        ContractType::from_str("   "),
        Err(ParseError::UnrecognizedDescriptorName("".to_string()))
    );
}

#[test]
fn categories_have_outer_types() {
    assert_eq!(OuterCategory::Bare.into_outer_type(false), OuterType::Pk);
    assert_eq!(OuterCategory::Bare.into_outer_type(true), OuterType::Bare);
    assert_eq!(OuterCategory::Hashed.into_outer_type(false), OuterType::Pkh);
    assert_eq!(OuterCategory::Hashed.into_outer_type(true), OuterType::Sh);
    assert_eq!(OuterCategory::SegWit.into_outer_type(false), OuterType::Wpkh);
    assert_eq!(OuterCategory::SegWit.into_outer_type(true), OuterType::Wsh);
    assert_eq!(OuterCategory::Taproot.into_outer_type(false), OuterType::Tr);
    assert_eq!(OuterCategory::Taproot.into_outer_type(true), OuterType::Tr);
}

#[test]
fn decimals() {
    for n in [0usize, 7, 10, 99, 100, 20301, 4294967296] {
        assert_eq!(decimal_text(n), n.to_string());
    }
    assert_eq!(decimal_text(usize::MAX), usize::MAX.to_string());
}

#[test]
fn texts_are_compared() {
    assert!(same_text("pkh", "pkh"));
    assert!(!same_text("pkh", "pk"));
}

#[test]
fn policies_are_weighed() {
    for text in [
        "pk(A)",
        "or(0@pk(A),1@pk(B))",
        "or(1@pk(A),0@pk(B))",
        "or(10@pk(A),0@pk(B))",
        "or(0@pk(A),10@pk(B))",
        "or(0@or(1@pk(A),0@pk(D)),1@pk(B))",
        "thresh(0,pk(A),pk(B))",
        "",
        "or(0@",
        "or(0@pk(A",
        "thresh(1",
    ] {
        assert_eq!(weigh_policy(text), Weighing::Done, "{}", text);
    }
    for text in [
        "or(0@pk(A),0@pk(B))",
        "and(pk(C),or(0@and(pk(A),pk(D)),0@pk(B)))",
        "or(1@or(0@pk(A),0@pk(D)),1@pk(B))",
        "thresh(2,pk(C),or(0@pk(A),0@pk(D)))",
        "and(or(0@TRIVIAL,0@pk(A)),UNSATISFIABLE)",
        "or(0@and(pk(A),UNSATISFIABLE),0@UNSATISFIABLE)",
        "or(0@and(pk(A),pk(B)),0@and(UNSATISFIABLE,pk(C)))",
    ] {
        assert_eq!(weigh_policy(text), Weighing::Stuck, "{}", text);
    }
    for text in [
        "UNSATISFIABLE",
        "or(0@UNSATISFIABLE,1@pk(B))",
        "or(0@UNSATISFIABLE,0@pk(B))",
        "and(UNSATISFIABLE,or(0@pk(A),0@pk(B)))",
        "thresh(1,UNSATISFIABLE,or(0@pk(A),0@pk(B)))",
        "or(0@pk(A),0@and(UNSATISFIABLE,pk(B)))",
        "or(0@or(0@UNSATISFIABLE,3@pk(A)),0@pk(B))",
    ] {
        assert_eq!(weigh_policy(text), Weighing::Refused, "{}", text);
    }
}
