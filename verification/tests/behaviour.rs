use npc::character::{is_lowercase, is_numeric, is_uppercase, to_ascii_lowercase, to_ascii_uppercase};
use npc::command::Options;
use npc::convertor::{IgnoreWordsConverter, PascalCaseReservedIdentifiersConverter};
use npc::corrector::InvalidCharacterCorrector;
use npc::fns::render;
use npc::reserved_store::{
    reserved_to_invalid_camel, reserved_to_invalid_pascal, to_lower_case, to_upper_case,
    PascalCaseReservedIdentifiers,
    ReservedIdentifier,
};
use npc::text::{chars_of, replace, string_of};
use npc::{
    convert, is_camel, is_chain, is_constant, is_flat, is_non_principal, is_pascal, is_snake,
    to_camel, to_chain, to_constant, to_pascal, to_snake, NamingPrincipal,
    NamingPrincipalConvertor, Parameter, PostConvert, PreConvert, Principal,
};

#[test]
fn own_convention_is_kept() {
    assert_eq!(to_snake("snake_case"), "snake_case");
    assert_eq!(to_snake("_snake__case_"), "_snake__case_");
    assert_eq!(to_camel("camelCase"), "camelCase");
    assert_eq!(to_camel("internetIP"), "internetIP");
    assert_eq!(to_pascal("PascalCase"), "PascalCase");
    assert_eq!(to_pascal("ABCData"), "ABCData");
    assert_eq!(to_constant("CONSTANT_CASE"), "CONSTANT_CASE");
    assert_eq!(to_constant("_CONSTANT"), "_CONSTANT");
    assert_eq!(to_chain("chain-case"), "chain-case");
    assert_eq!(to_chain("-chain--case-"), "-chain--case-");
}

#[test]
fn regular_snake_case_comes_back() {
    let cases = [
        "snake_case",
        "get_edge_configuration_stack_with_edge_id9012",
        "ab_cd0_ef",
        "1a_bc",
        "9_ab",
        "\u{2170}_ab",
        "\u{663}x_yz",
    ];
    assert!('\u{2170}'.is_lowercase() && '\u{2170}'.is_numeric());
    for s in cases {
        assert_eq!(to_snake(&to_camel(s)), s);
        assert_eq!(to_snake(&to_pascal(s)), s);
        assert_eq!(to_snake(&to_constant(s)), s);
        assert_eq!(to_snake(&to_chain(s)), s);
        assert_eq!(to_snake(&to_chain(&to_constant(&to_camel(&to_pascal(s))))), s);
        assert_eq!(to_camel(&to_pascal(s)), to_camel(s));
        assert_eq!(to_constant(&to_camel(s)), to_constant(s));
        assert_eq!(to_chain(&to_constant(s)), to_chain(s));
        assert_eq!(to_chain(&to_pascal(s)), to_chain(s));
        assert_eq!(to_chain(&to_camel(s)), to_chain(s));
    }
}

#[test]
fn every_walk_through_the_conventions_comes_back() {
    let targets = [
        Principal::Camel,
        Principal::Pascal,
        Principal::Snake,
        Principal::Constant,
        Principal::Chain,
    ];
    for s in ["snake_case", "ab_cd0_ef", "1a_bc", "x9_yz_w0"] {
        for a in targets {
            for b in targets {
                for c in targets {
                    let end = render(&render(&render(s, a), b), c);
                    assert_eq!(end, render(s, c));
                    assert_eq!(to_snake(&end), s);
                }
            }
        }
    }
}

fn is_small(c: char) -> bool {
    c.is_ascii_lowercase()
}

fn comes_back(s: &[char]) -> bool {
    let regular = !s.is_empty()
        && s[0] != '_'
        && s.contains(&'_')
        && (0..s.len()).all(|i| s[i] != '_' || (i + 1 < s.len() && is_small(s[i + 1])));
    let long_word = (1..s.len()).any(|i| is_small(s[i]) && s[i - 1] != '_');
    let lone_letter = (0..s.len()).any(|i| i + 2 < s.len() && s[i] == '_' && s[i + 2] == '_');
    regular && long_word && (!is_small(s[0]) || !lone_letter)
}

#[test]
fn only_regular_snake_case_comes_back() {
    let alphabet = ['a', 'b', '1', '_'];
    let mut seen = [0usize; 2];
    for len in 1..=6u32 {
        for n in 0..4usize.pow(len) {
            let chars: Vec<char> = (0..len).map(|k| alphabet[(n >> (2 * k)) & 3]).collect();
            let s: String = chars.iter().collect();
            if chars[0] == '_' || NamingPrincipal::new(&s) != NamingPrincipal::Snake(&s) {
                continue;
            }
            let back = to_snake(&to_camel(&s)) == s
                && to_snake(&to_pascal(&s)) == s
                && to_snake(&to_constant(&s)) == s
                && to_snake(&to_chain(&s)) == s
                && to_snake(&to_chain(&to_constant(&to_camel(&to_pascal(&s))))) == s;
            assert_eq!(back, comes_back(&chars), "{:?}", s);
            seen[back as usize] += 1;
        }
    }
    assert!(seen[0] > 0 && seen[1] > 0);
}

#[test]
fn snake_case_that_does_not_come_back() {
    // An empty word, a word that begins with a digit, a `_` at the end.
    assert_eq!(to_snake(&to_pascal("a__b")), "a_b");
    assert_eq!(to_snake(&to_pascal("ab_1")), "ab1");
    assert_eq!(to_snake(&to_pascal("ab_")), "ab");
    // Words of one letter only: the pascal form is all capitals.
    assert_eq!(to_pascal("a_b"), "AB");
    assert_eq!(to_snake(&to_pascal("a_b")), "ab");
    // A lone letter with a word after it: the camel form has two capitals in a row.
    assert_eq!(to_camel("ab_c_de"), "abCDe");
    assert_eq!(to_snake(&to_camel("ab_c_de")), "ab_cde");
    // A digit first: the pascal form is constant case.
    assert_eq!(to_snake(&to_pascal("1_a")), "1a");
    // A small letter beyond ASCII stays small in constant case.
    assert_eq!(to_constant("a\u{df}_b"), "A\u{df}_B");
    assert_eq!(to_snake(&to_constant("a\u{df}_b")), "a\u{df}__b");
}

#[test]
fn snake_case_always_comes_back_from_chain_case() {
    for s in ["_a", "a__b", "a_", "_", "x_1", "\u{f1}and\u{fa}_\u{df}"] {
        assert_eq!(NamingPrincipal::new(s), NamingPrincipal::Snake(s));
        assert_eq!(to_snake(&to_chain(s)), s);
    }
}

#[test]
fn empty_string() {
    assert_eq!(NamingPrincipal::new(""), NamingPrincipal::Empty(""));
    assert!(NamingPrincipal::is_empty(""));
    assert!(!NamingPrincipal::is_empty("a"));
    assert_eq!(to_snake(""), "");
    assert_eq!(to_camel(""), "");
    assert_eq!(to_pascal(""), "");
    assert_eq!(to_constant(""), "");
    assert_eq!(to_chain(""), "");
}

#[test]
fn snake_case_scenario() {
    assert_eq!(NamingPrincipal::new("snake_case"), NamingPrincipal::Snake("snake_case"));
    assert_eq!(to_camel("snake_case"), "snakeCase");
    assert_eq!(to_pascal("snake_case"), "SnakeCase");
    assert_eq!(to_chain("snake_case"), "snake-case");
    assert_eq!(to_constant("snake_case"), "SNAKE_CASE");
}

#[test]
fn pascal_case_of_capitals_scenario() {
    assert_eq!(NamingPrincipal::new("ABCData"), NamingPrincipal::Pascal("ABCData"));
    assert_eq!(to_snake("ABCData"), "a_b_c_data");
    assert_eq!(to_camel("ABCData"), "aBCData");
}

#[test]
fn leading_separator_is_kept() {
    assert_eq!(to_snake("-chain-case"), "_chain_case");
    let chain = to_chain(&to_constant("_CONSTANT_CASE"));
    assert_eq!(chain, "-constant-case");
    assert_eq!(to_snake(&chain), "_constant_case");
    assert_eq!(to_chain("_snake_case"), "-snake-case");
    assert_eq!(to_constant("-chain-case"), "_CHAIN_CASE");
}

#[test]
fn reserved_word_scenario() {
    let source = "UseGitHubEnterpriseGitHub";
    let hook = PascalCaseReservedIdentifiersConverter::wellknown();
    assert_eq!(to_snake(source), "use_git_hub_enterprise_git_hub");
    assert_eq!(hook.to(&to_snake(source), Principal::Snake), "use_github_enterprise_github");
    assert_eq!(
        hook.to(&to_constant(source), Principal::Constant),
        "USE_GITHUB_ENTERPRISE_GITHUB"
    );
    assert_eq!(hook.to(&to_chain(source), Principal::Chain), "use-github-enterprise-github");
    assert_eq!(hook.to("use_github_enterprise", Principal::Pascal), "UseGitHubEnterprise");
    assert_eq!(to_camel("ChatGPT"), "chatGPT");
    assert_eq!(hook.to("ChatGPT", Principal::Camel), "ChatGPT");
    let hook = hook.add("UKai");
    assert_eq!(hook.to("uKaiUse", Principal::Camel), "UKaiUse");
}

#[test]
fn reserved_words_are_put_back_in_the_order_of_registration() {
    let hook = PascalCaseReservedIdentifiersConverter::wellknown().add("GitHubPages").add("Git");
    // `GitHub` comes first and leaves nothing of `git_hub_pages` for the second word.
    assert_eq!(hook.to("git_hub_pages", Principal::Snake), "github_pages");
    // A later word is looked for in what the earlier ones left.
    let hook = PascalCaseReservedIdentifiersConverter::wellknown().add("HubPage");
    assert_eq!(hook.to("git_hub_page", Principal::Snake), "githubpage");
}

#[test]
fn reserved_identifier_renderings() {
    let word = ReservedIdentifier::new("GitHub");
    assert_eq!(word.word(), "GitHub");
    assert_eq!(word.rendering(Principal::Snake), "git_hub");
    assert_eq!(word.rendering(Principal::Constant), "GIT_HUB");
    assert_eq!(word.rendering(Principal::Chain), "git-hub");
    assert_eq!(word.rendering(Principal::Pascal), "Github");
    assert_eq!(word.rendering(Principal::Camel), "gitHub");
    assert_eq!(word.replacement(Principal::Snake), "github");
    assert_eq!(word.replacement(Principal::Chain), "github");
    assert_eq!(word.replacement(Principal::Constant), "GITHUB");
    assert_eq!(word.replacement(Principal::Pascal), "GitHub");
    assert_eq!(word.replacement(Principal::Camel), "GitHub");
    // Only `A` to `Z` and `a` to `z` are folded.
    let word = ReservedIdentifier::new("\u{c9}milePage");
    assert_eq!(word.rendering(Principal::Pascal), "\u{c9}milepage");
    assert_eq!(word.replacement(Principal::Snake), "\u{c9}milepage");
    assert_eq!(word.replacement(Principal::Constant), "\u{c9}MILEPAGE");
    assert_eq!(to_lower_case("GitHub \u{c9}"), "github \u{c9}");
    assert_eq!(to_upper_case("GitHub \u{e9}"), "GITHUB \u{e9}");
}

#[test]
fn reserved_store_replaces_for_every_convention() {
    let mut store = PascalCaseReservedIdentifiers::new();
    assert_eq!(store.replace_for_snake_case("git_hub"), "git_hub");
    store.add("GitHub");
    assert_eq!(store.replace_for_snake_case("git_hub"), "github");
    assert_eq!(store.replace_for_constant_case("MY_GIT_HUB"), "MY_GITHUB");
    assert_eq!(store.replace_for_chain_case("git-hub-x"), "github-x");
    assert_eq!(store.replace_for_pascal_case("my_github_page"), "MyGitHubPage");
    assert_eq!(store.correct_for(Principal::Snake, "a_git_hub"), "a_github");
    assert_eq!(store.correct_for(Principal::Camel, "myGitHub"), "myGitHub");
    assert_eq!(store.correct_for(Principal::Camel, "gitHubPage"), "GitHubPage");
    let store = PascalCaseReservedIdentifiers::wellknown();
    assert_eq!(
        store.replace_for_snake_case("deep_l_type_script_chat_g_p_t"),
        "deepl_typescript_chatgpt"
    );
    assert_eq!(store.replace_for_snake_case("use_chat_g_p_t"), "use_chatgpt");
    assert_eq!(store.replace_for_constant_case("USE_CHAT_G_P_T"), "USE_CHATGPT");
}

#[test]
fn ignore_words_leave_a_separator_behind() {
    let ignores = IgnoreWordsConverter::new(&["HelloWorld"]);
    assert_eq!(ignores.fix_for("say_hello_world_twice", Principal::Snake), "say_HelloWorld_twice");
    assert_eq!(ignores.fix_for("helloWorldTwice", Principal::Camel), "HelloWorldTwice");
    assert_eq!(ignores.fix_for("nothing_here", Principal::Snake), "nothing_here");
    let none = IgnoreWordsConverter::new(&[]);
    assert_eq!(none.fix_for("hello_world", Principal::Snake), "hello_world");
}

#[test]
fn ignore_word_that_converts_to_nothing() {
    // `-` alone is chain case; its camel form is empty, and the empty
    // pattern stands before every character and at the end.
    assert_eq!(to_camel("-"), "");
    let ignores = IgnoreWordsConverter::new(&["-"]);
    assert_eq!(ignores.fix_for("ab", Principal::Camel), "-a-b-");
}

#[test]
fn replace_is_as_in_std() {
    let cases = [
        ("use_git_hub_enterprise_git_hub", "git_hub", "github"),
        ("aaaa", "aa", "b"),
        ("aaa", "aa", "b"),
        ("abc", "", "-"),
        ("", "", "-"),
        ("", "a", "b"),
        ("abc", "abcd", "x"),
        ("abc", "abc", ""),
        ("ababab", "aba", "x"),
        ("\u{e9}t\u{e9}", "\u{e9}", "e"),
        ("\u{e9}t\u{e9}", "", "."),
        ("xay", "a", "a"),
        ("abcabc", "c", "cc"),
    ];
    for (s, pat, to) in cases {
        assert_eq!(replace(s, pat, to), s.replace(pat, to));
    }
    assert_eq!(replace("abc", "", "-"), "-a-b-c-");
    assert_eq!(replace("aaa", "aa", "b"), "ba");
}

#[test]
fn characters_are_as_in_std() {
    for n in 0u32..0x3000 {
        if let Some(c) = char::from_u32(n) {
            assert_eq!(is_lowercase(c), c.is_lowercase());
            assert_eq!(is_uppercase(c), c.is_uppercase());
            assert_eq!(is_numeric(c), c.is_numeric());
            assert_eq!(to_ascii_lowercase(c), c.to_ascii_lowercase());
            assert_eq!(to_ascii_uppercase(c), c.to_ascii_uppercase());
        }
    }
    assert_eq!(to_ascii_lowercase('Q'), 'q');
    assert_eq!(to_ascii_uppercase('q'), 'Q');
    assert_eq!(to_ascii_uppercase('\u{e9}'), '\u{e9}');
}

#[test]
fn letters_beyond_ascii_are_classified() {
    assert!(is_flat("\u{f1}and\u{fa}"));
    assert!(is_flat("\u{663}"));
    assert!(is_constant("\u{d1}AND\u{da}_X"));
    assert!(is_pascal("\u{c9}mile"));
    assert!(is_camel("\u{e9}mile"));
    assert!(!is_flat("\u{d1}"));
    assert_eq!(to_snake("\u{e9}mileZola"), "\u{e9}mile_zola");
    assert_eq!(to_snake("A\u{c9}"), "a\u{c9}");
}

#[test]
fn strings_and_characters() {
    assert_eq!(chars_of("a\u{e9}b"), vec!['a', '\u{e9}', 'b']);
    assert_eq!(chars_of(""), Vec::<char>::new());
    assert_eq!(string_of(&vec!['x', '\u{e9}', '_']), "x\u{e9}_");
    assert_eq!(string_of(&chars_of("round trip")), "round trip");
}

#[test]
fn classification_is_total() {
    let alphabet = ['a', 'z', 'A', 'Z', '0', '9', '_', '-'];
    let mut seed: u32 = 12345;
    let mut count = [0usize; 8];
    for _ in 0..4000 {
        let mut s = String::new();
        seed = seed.wrapping_mul(1664525).wrapping_add(1013904223);
        let len = (seed >> 24) % 7;
        for _ in 0..len {
            seed = seed.wrapping_mul(1664525).wrapping_add(1013904223);
            s.push(alphabet[((seed >> 16) % 8) as usize]);
        }
        let tags = [
            is_flat(&s),
            is_camel(&s) && !is_flat(&s),
            is_pascal(&s),
            is_snake(&s) && !is_flat(&s),
            is_constant(&s) && !is_snake(&s) && !is_pascal(&s),
            is_chain(&s) && !is_flat(&s),
            s.is_empty(),
            is_non_principal(&s),
        ];
        assert_eq!(tags.iter().filter(|t| **t).count(), 1, "{:?}", s);
        let which = match NamingPrincipal::new(&s) {
            NamingPrincipal::Flat(t) => (0, t),
            NamingPrincipal::Camel(t) => (1, t),
            NamingPrincipal::Pascal(t) => (2, t),
            NamingPrincipal::Snake(t) => (3, t),
            NamingPrincipal::Constant(t) => (4, t),
            NamingPrincipal::Chain(t) => (5, t),
            NamingPrincipal::Empty(t) => (6, t),
            NamingPrincipal::NonPrincipal(t) => (7, t),
        };
        assert!(tags[which.0], "{:?}", s);
        assert_eq!(which.1, s);
        count[which.0] += 1;
        // Every conversion answers.
        for p in [Principal::Camel, Principal::Pascal, Principal::Snake, Principal::Constant, Principal::Chain] {
            let _ = render(&s, p);
        }
    }
    assert!(count.iter().all(|n| *n > 0));
}

#[test]
fn classification_edges() {
    assert_eq!(NamingPrincipal::new("flat9"), NamingPrincipal::Flat("flat9"));
    assert_eq!(NamingPrincipal::new("9"), NamingPrincipal::Flat("9"));
    assert_eq!(NamingPrincipal::new("A"), NamingPrincipal::Constant("A"));
    assert_eq!(NamingPrincipal::new("A1"), NamingPrincipal::Constant("A1"));
    assert_eq!(NamingPrincipal::new("_"), NamingPrincipal::Snake("_"));
    assert_eq!(NamingPrincipal::new("-"), NamingPrincipal::Chain("-"));
    assert_eq!(NamingPrincipal::new("a_b-c"), NamingPrincipal::NonPrincipal("a_b-c"));
    assert_eq!(NamingPrincipal::new("A-b"), NamingPrincipal::NonPrincipal("A-b"));
    assert_eq!(NamingPrincipal::new("1aB"), NamingPrincipal::NonPrincipal("1aB"));
    assert_eq!(NamingPrincipal::new("a b"), NamingPrincipal::Camel("a b"));
    assert_eq!(NamingPrincipal::new("snake_case").tag(), npc::Convention::Snake);
}

#[test]
fn convertor_keeps_its_source() {
    let convertor = NamingPrincipalConvertor::new("ABC-Data_");
    assert_eq!(convertor.original(), "ABC-Data_");
    assert!(convertor.is_non_principal());
    assert!(!convertor.is_constant());
    assert!(!convertor.is_chain());
    assert!(!convertor.is_pascal());
    assert!(!convertor.is_snake());
    assert!(!convertor.is_camel());
    assert!(NamingPrincipalConvertor::new("a_b").is_snake());
    assert!(NamingPrincipalConvertor::new("aB").is_camel());
    assert!(NamingPrincipalConvertor::new("Ab").is_pascal());
    assert!(NamingPrincipalConvertor::new("A_B").is_constant());
    assert!(NamingPrincipalConvertor::new("a-b").is_chain());
}

#[test]
fn strings_of_no_convention() {
    // `-` before a capital is dropped, so that no separator is doubled.
    assert_eq!(to_snake("A-D"), "a_d");
    assert_eq!(to_snake("a-B_c"), "a_b_c");
    assert_eq!(to_snake("A-b"), "a_b");
    assert_eq!(to_snake("x-"), "x_");
    assert_eq!(to_snake("1aB"), "1a_b");
    assert_eq!(to_constant("A-D"), "A_D");
    assert_eq!(to_pascal("A-D"), "AD");
    assert_eq!(to_camel("A-b"), "aB");
    assert_eq!(to_chain("A-b"), "a-b");
    // The character after `-` counts, also past a letter beyond ASCII.
    assert_eq!(to_snake("\u{e9}-A_"), "\u{e9}_a_");
    // The snake form has no convention either: it is converted as snake.
    assert_eq!(to_snake("a b_c"), "a b_c");
    assert_eq!(to_chain("a b_c"), "a b-c");
    assert_eq!(to_camel("!a_b"), "!aB");
    assert_eq!(to_pascal("!a_b"), "!aB");
    assert_eq!(to_constant("!a_b"), "!A_B");
}

#[test]
fn chain_case_has_the_word_boundaries_of_snake_case() {
    for s in ["camelCase", "internetIP", "aBC", "aB1C", "PascalCase", "ABCData", "Ab", "a b!C"] {
        assert!(is_camel(s) || is_pascal(s));
        assert_eq!(to_chain(s), to_snake(s).replace("_", "-"));
    }
}

#[test]
fn conversions_with_exact_results() {
    assert_eq!(to_snake("internetIP"), "internet_ip");
    assert_eq!(to_chain("internetIP"), "internet-ip");
    assert_eq!(to_snake("aBC"), "a_bc");
    assert_eq!(to_chain("aBC"), "a-bc");
    assert_eq!(to_constant("internetIP"), "INTERNET_IP");
    assert_eq!(to_camel("CONSTANT"), "constant");
    assert_eq!(to_pascal("CONSTANT"), "Constant");
    assert_eq!(to_camel("A__B"), "a_b");
    assert_eq!(to_pascal("A__B"), "AB");
    assert_eq!(to_camel("a__b"), "a_b");
    assert_eq!(to_pascal("a__b"), "A_b");
    assert_eq!(to_pascal("_a"), "A");
    assert_eq!(to_camel("_a"), "a");
    assert_eq!(to_camel("a_"), "a");
    assert_eq!(to_pascal("flat"), "Flat");
    assert_eq!(to_constant("flat9"), "FLAT9");
    assert_eq!(to_pascal("1a_b"), "1aB");
}

struct Shout;

impl PostConvert for Shout {
    fn convert(&self, source: &str, _principal: Principal) -> String {
        format!("{}!", source)
    }
}

struct Trim;

impl PreConvert for Trim {
    fn convert(&self, source: &str, _principal: Principal) -> String {
        source.trim().to_string()
    }
}

struct Tag(Principal);

impl PostConvert for Tag {
    fn convert(&self, source: &str, principal: Principal) -> String {
        format!("{}:{}:{}", source, principal == self.0, principal == Principal::Snake)
    }
}

#[test]
fn pipeline_runs_hooks_in_order() {
    let params = Parameter::new("  useGitHub ", Principal::Snake)
        .add_pre_convert(Box::new(Trim))
        .add_post_convert(PascalCaseReservedIdentifiersConverter::wellknown().to_convertor())
        .add_post_convert(Box::new(Shout))
        .add_post_convert(Box::new(Tag(Principal::Snake)));
    assert_eq!(convert(&params), "use_github!:true:true");
    assert_eq!(params.run(), "use_github!:true:true");
    let params = params.change_principal(Principal::Chain);
    assert_eq!(convert(&params), "use-github!:false:false");
    let bare = Parameter::new("useGitHub", Principal::Constant);
    assert_eq!(convert(&bare), "USE_GIT_HUB");
}

#[test]
fn corrector_runs_before_the_conversion() {
    let params = Parameter::new("invalid:identifier ", Principal::Camel)
        .add_pre_convert(Box::new(InvalidCharacterCorrector::default()));
    assert_eq!(convert(&params), "invalidIdentifier");
    let params = params.change_principal(Principal::Constant);
    assert_eq!(convert(&params), "INVALID_IDENTIFIER");
}

#[test]
fn what_a_conversion_leaves_of_a_reserved_word() {
    assert_eq!(reserved_to_invalid_pascal("GitHub"), "Github");
    assert_eq!(reserved_to_invalid_pascal("ChatGPT"), "Chatgpt");
    assert_eq!(reserved_to_invalid_camel("GitHub"), "gitHub");
    assert_eq!(reserved_to_invalid_camel("UKai"), "uKai");
}

#[test]
fn corrector_edges() {
    let sut = InvalidCharacterCorrector::default();
    assert_eq!(sut.to_snake(""), "");
    assert_eq!(sut.to_snake("a:b:"), "a_b");
    assert_eq!(sut.to_snake("ab_"), "ab");
    assert_eq!(sut.to_snake("a.b c"), "a_b_c");
    assert_eq!(sut.to_constant("a.b c"), "A_B_C");
    let mut sut = InvalidCharacterCorrector::new();
    assert_eq!(sut.to_snake("a:b"), "a:b");
    sut.add_invalid_character(':');
    sut.add_invalid_character('#');
    sut.add_invalid_character(':');
    assert_eq!(sut.to_snake("a:b#c"), "a_b_c");
    sut.remove_invalid_character(':');
    assert_eq!(sut.to_snake("a:b#c"), "a:b_c");
}

fn options(sentence: &str) -> Options {
    Options {
        snake: false,
        camel: false,
        pascal: false,
        chain: false,
        constant: false,
        ignores: Vec::new(),
        consider_well_known: false,
        consider_words: Vec::new(),
        sentence: sentence.to_string(),
    }
}

#[test]
fn command_line_options() {
    let mut o = options("UKaiUseGitHub");
    assert!(o.principal() == Principal::Snake);
    assert_eq!(o.run(), "u_kai_use_git_hub");
    o.consider_words = vec!["UKai".to_string()];
    assert_eq!(o.run(), "u_kai_use_git_hub");
    o.consider_well_known = true;
    assert_eq!(o.run(), "ukai_use_github");
    o.constant = true;
    o.chain = true;
    assert!(o.principal() == Principal::Chain);
    assert_eq!(o.run(), "ukai-use-github");
    o.pascal = true;
    assert!(o.principal() == Principal::Pascal);
    o.camel = true;
    assert!(o.principal() == Principal::Camel);
    o.snake = true;
    assert!(o.principal() == Principal::Snake);
    let mut o = options("HelloWorld! GoodBye");
    o.constant = true;
    o.ignores = vec!["HelloWorld".to_string()];
    assert!(o.principal() == Principal::Constant);
    assert_eq!(o.run(), "HelloWorld! _GOOD_BYE");
}
