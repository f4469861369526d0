use npc::convertor::{IgnoreWordsConverter, PascalCaseReservedIdentifiersConverter};
use npc::corrector::InvalidCharacterCorrector;
use npc::fns::{
    to_chain_consider_with_wellknown_word, to_chain_consider_with_wellknown_word_and_others,
    to_chain_consider_with_words, to_constant_consider_with_wellknown_and_others,
    to_constant_consider_with_wellknown_word, to_constant_with_words,
    to_snake_consider_with_wellknown_and_others, to_snake_consider_with_wellknown_word,
    to_snake_consider_with_words,
};
use npc::reserved_store::PascalCaseReservedIdentifiers;
use npc::{convert, to_pascal, Parameter, Principal};

#[test]
fn consider_reserved_words_in_pascal_case_names() {
    let source = "UKaiUseGitHubEnterpriseGitHub";

    let params = Parameter::new(source, Principal::Snake).add_post_convert(
        PascalCaseReservedIdentifiersConverter::wellknown()
            .add("UKai")
            .to_convertor(),
    );
    assert_eq!(convert(&params), "ukai_use_github_enterprise_github");

    let params = params.change_principal(Principal::Constant);
    assert_eq!(convert(&params), "UKAI_USE_GITHUB_ENTERPRISE_GITHUB");

    let params = params.change_principal(Principal::Chain);
    assert_eq!(convert(&params), "ukai-use-github-enterprise-github");

    let params = params.change_principal(Principal::Camel);
    assert_eq!(convert(&params), "UKaiUseGitHubEnterpriseGitHub");

    let source = "ukai-use-github-enterprise-github";
    let params = Parameter::new(source, Principal::Pascal).add_post_convert(
        PascalCaseReservedIdentifiersConverter::wellknown()
            .add("UKai")
            .to_convertor(),
    );

    assert_eq!(convert(&params), "UKaiUseGitHubEnterpriseGitHub");
}

#[test]
fn consider_ignore_words() {
    let source = "HelloWorld! GoodBye";
    let ignores = IgnoreWordsConverter::new(&["HelloWorld"]);
    let params = Parameter::new(source, Principal::Snake).add_post_convert(ignores.to_convertor());
    // The separator next to a restored word stays: a known limitation.
    assert_eq!(convert(&params), "HelloWorld! _good_bye");

    let params = params.change_principal(Principal::Constant);
    assert_eq!(convert(&params), "HelloWorld! _GOOD_BYE");

    let params = params.change_principal(Principal::Chain);
    assert_eq!(convert(&params), "HelloWorld! -good-bye");

    let params = params.change_principal(Principal::Camel);
    assert_eq!(convert(&params), "HelloWorld! GoodBye");
}

#[test]
fn consider_pascal_case_names_with_wellknown_words() {
    let source = "UseGitHubEnterpriseGitHub";
    let params = Parameter::new(source, Principal::Snake)
        .add_post_convert(PascalCaseReservedIdentifiersConverter::wellknown().to_convertor());
    assert_eq!(convert(&params), "use_github_enterprise_github");

    let params = params.change_principal(Principal::Constant);
    assert_eq!(convert(&params), "USE_GITHUB_ENTERPRISE_GITHUB");

    let params = params.change_principal(Principal::Chain);
    assert_eq!(convert(&params), "use-github-enterprise-github");
}

#[test]
fn invalid_character_can_be_removed_from_the_defaults() {
    let source = "invalid#identifier";
    let mut sut = InvalidCharacterCorrector::default();
    sut.remove_invalid_character('#');
    assert_eq!(sut.to_snake(source), "invalid#identifier");
}

#[test]
fn invalid_character_can_be_added() {
    let source = "invalid#identifier";
    let mut sut = InvalidCharacterCorrector::new();
    sut.add_invalid_character('#');
    assert_eq!(sut.to_snake(source), "invalid_identifier");
}

#[test]
fn invalid_characters_are_corrected_for_any_convention() {
    let source = "invalid:identifier";
    let sut = InvalidCharacterCorrector::default();
    assert_eq!(sut.to_snake(source), "invalid_identifier");
    assert_eq!(sut.to_camel(source), "invalidIdentifier");
    assert_eq!(sut.to_pascal(source), "InvalidIdentifier");
    assert_eq!(sut.to_constant(source), "INVALID_IDENTIFIER");
    let source = "invalid identifier@";
    let sut = InvalidCharacterCorrector::default();
    assert_eq!(sut.to_snake(source), "invalid_identifier");
    assert_eq!(sut.to_camel(source), "invalidIdentifier");
    assert_eq!(sut.to_pascal(source), "InvalidIdentifier");
    assert_eq!(sut.to_constant(source), "INVALID_IDENTIFIER");
}

#[test]
fn pascal_case_names_consider_wellknown_and_other_words() {
    let source = "UKaiUseGitHubEnterpriseGitHub";
    let words = vec!["UKai"];

    let result = to_snake_consider_with_wellknown_and_others(source, &words);
    assert_eq!(result, "ukai_use_github_enterprise_github");
    let result = to_constant_consider_with_wellknown_and_others(source, &words);
    assert_eq!(result, "UKAI_USE_GITHUB_ENTERPRISE_GITHUB");
    let result = to_chain_consider_with_wellknown_word_and_others(source, &words);
    assert_eq!(result, "ukai-use-github-enterprise-github");
}

#[test]
fn pascal_case_names_consider_registered_words() {
    let source = "UKaiUseGitHubEnterpriseGitHub";
    let words = vec!["UKai"];

    let result = to_snake_consider_with_words(source, &words);
    assert_eq!(result, "ukai_use_git_hub_enterprise_git_hub");
    let result = to_constant_with_words(source, &words);
    assert_eq!(result, "UKAI_USE_GIT_HUB_ENTERPRISE_GIT_HUB");
    let result = to_chain_consider_with_words(source, &words);
    assert_eq!(result, "ukai-use-git-hub-enterprise-git-hub");
}

#[test]
fn pascal_case_names_consider_wellknown_words() {
    let source = "UseGitHubEnterpriseGitHub";

    let result = to_snake_consider_with_wellknown_word(source);
    assert_eq!(result, "use_github_enterprise_github");
    let result = to_constant_consider_with_wellknown_word(source);
    assert_eq!(result, "USE_GITHUB_ENTERPRISE_GITHUB");
    let result = to_chain_consider_with_wellknown_word(source);
    assert_eq!(result, "use-github-enterprise-github");
}

#[test]
fn pascal_of_a_long_snake_name_with_digits() {
    let sut = "get_edge_configuration_stack_with_edge_id9012";
    assert_eq!(to_pascal(sut), "GetEdgeConfigurationStackWithEdgeId9012");
}

#[test]
fn registered_pascal_case_names_are_written_in_lowercase() {
    let sut = PascalCaseReservedIdentifiers::wellknown();
    assert_eq!(
        sut.replace_for_snake_case("use_git_hub_enterprise_git_hub"),
        "use_github_enterprise_github"
    );
}
