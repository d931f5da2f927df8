use tg_codegen::{
    build_return_type, field_rust_type, generate_methods, generate_types, is_skipped, is_tg_array,
    method_fn_name, method_params_name, names_covered, plan_methods, plan_types, rust_field_name, sorted_keys,
    strip_array, tg_to_rust, uses_first_type_fallback, ApiSpec, Field, InputMedia, Method, RustType, TgType, TypeDecl,
};

fn s(x: &str) -> String {
    x.to_string()
}

fn lines(parts: &[&str]) -> String {
    parts.concat()
}

fn names(xs: &[&str]) -> Vec<String> {
    xs.iter().map(|x| s(x)).collect()
}

fn field(name: &str, types: &[&str], required: bool) -> Field {
    Field {
        name: s(name),
        types: names(types),
        required,
        description: format!("The {} field.", name),
    }
}

fn tg_type(name: &str, fields: Vec<Field>, subtypes: &[&str]) -> TgType {
    TgType {
        name: s(name),
        description: vec![format!("About {}.", name)],
        href: format!("https://example.org/#{}", name.to_lowercase()),
        fields,
        subtypes: names(subtypes),
        subtype_of: vec![],
    }
}

fn method(name: &str, fields: Vec<Field>, results: &[&str]) -> Method {
    Method {
        name: s(name),
        description: vec![format!("Calls {}.", name)],
        href: format!("https://example.org/#{}", name.to_lowercase()),
        fields,
        result_types: names(results),
    }
}

fn spec(types: Vec<TgType>, methods: Vec<Method>) -> ApiSpec {
    ApiSpec {
        version: s("9.4"),
        release_date: s("2026-01-01"),
        types: types.into_iter().map(|t| (t.name.clone(), t)).collect(),
        methods: methods.into_iter().map(|m| (m.name.clone(), m)).collect(),
    }
}

fn table(types: Vec<TgType>) -> Vec<(String, TgType)> {
    types.into_iter().map(|t| (t.name.clone(), t)).collect()
}

fn message_types() -> Vec<TgType> {
    vec![
        tg_type("Message", vec![field("message_id", &["Integer"], true)], &[]),
        tg_type("Update", vec![field("message", &["Message"], false)], &[]),
        tg_type("CallbackGame", vec![], &[]),
    ]
}

fn names_in(t: &RustType, out: &mut Vec<String>) {
    match t {
        RustType::Named(n) => out.push(n.clone()),
        RustType::List(i) | RustType::Optional(i) | RustType::Boxed(i) => names_in(i, out),
        _ => {}
    }
}

const TYPES_HEADER: &str = "// THIS FILE IS AUTO-GENERATED. DO NOT EDIT.\n// Generated from Telegram Bot API 9.4\n// https://core.telegram.org/bots/api\n\nuse serde::{Deserialize, Serialize};\nuse crate::{ChatId, InputFile, InputFileOrString, ReplyMarkup};\n\n";

const METHODS_HEADER: &str = "// THIS FILE IS AUTO-GENERATED. DO NOT EDIT.\n// Generated from Telegram Bot API 9.4\n\nuse serde::{Deserialize, Serialize};\nuse crate::{Bot, BotError, ChatId, InputFile, InputFileOrString, ReplyMarkup};\nuse crate::types::*;\n\n";

#[test]
fn send_message_wrapper() {
    let sm = method(
        "sendMessage",
        vec![
            field("chat_id", &["Integer", "String"], true),
            field("text", &["String"], true),
            field("parse_mode", &["String"], false),
        ],
        &["Message"],
    );
    let sp = spec(message_types(), vec![sm]);
    let expected = format!(
        "{}{}",
        METHODS_HEADER,
        lines(&[
            "/// Optional parameters for [`Bot::send_message`]\n",
            "#[derive(Debug, Clone, Serialize, Deserialize, Default)]\n",
            "pub struct SendMessageParams {\n",
            "    /// The parse_mode field.\n",
            "    #[serde(skip_serializing_if = \"Option::is_none\")]\n",
            "    pub parse_mode: Option<String>,\n",
            "}\n",
            "\n",
            "impl Bot {\n",
            "    /// Calls sendMessage.\n",
            "    /// See: https://example.org/#sendmessage\n",
            "    pub async fn send_message(&self, chat_id: impl Into<ChatId>, text: impl Into<String>, params: Option<&SendMessageParams>) -> Result<Message, BotError> {\n",
            "        let mut form = serde_json::json!({});\n",
            "        form[\"chat_id\"] = serde_json::to_value(chat_id.into()).unwrap_or_default();\n",
            "        form[\"text\"] = serde_json::to_value(text.into()).unwrap_or_default();\n",
            "        if let Some(p) = params {\n",
            "            if let Some(ref v) = p.parse_mode { form[\"parse_mode\"] = serde_json::to_value(v).unwrap_or_default(); }\n",
            "        }\n",
            "        self.call_api(\"sendMessage\", &form).await\n",
            "    }\n",
            "}\n",
            "\n",
        ])
    );
    assert_eq!(generate_methods(&sp), expected);
    let plan = plan_methods(&sp);
    assert_eq!(plan.len(), 1);
    assert_eq!(plan[0].required.len(), 2);
    assert_eq!(plan[0].optional.len(), 1);
    assert!(matches!(plan[0].required[0].ty, RustType::ChatId));
    assert!(matches!(plan[0].required[1].ty, RustType::Str));
}

#[test]
fn optional_struct_field_is_boxed() {
    let types = table(message_types());
    let update = &types[1].1;
    let t = field_rust_type(&update.fields[0], &types);
    assert_eq!(t.render(), "Option<Box<Message>>");
    let out = generate_types(&spec(message_types(), vec![]));
    assert!(out.contains(&lines(&[
        "pub struct Update {\n",
        "    /// The message field.\n",
        "    #[serde(skip_serializing_if = \"Option::is_none\")]\n",
        "    pub message: Option<Box<Message>>,\n",
        "}\n"
    ])));
}

#[test]
fn required_array_field_is_plain_vec() {
    let types = table(vec![
        tg_type("PhotoSize", vec![field("file_id", &["String"], true)], &[]),
        tg_type("UserProfilePhotos", vec![field("photos", &["Array of PhotoSize"], true)], &[]),
    ]);
    let t = field_rust_type(&types[1].1.fields[0], &types);
    assert_eq!(t.render(), "Vec<PhotoSize>");
    assert!(!t.is_optional());
    let out = generate_types(&spec(
        vec![
            tg_type("PhotoSize", vec![field("file_id", &["String"], true)], &[]),
            tg_type("UserProfilePhotos", vec![field("photos", &["Array of PhotoSize"], true)], &[]),
        ],
        vec![],
    ));
    assert!(out.contains("    /// The photos field.\n    pub photos: Vec<PhotoSize>,\n"));
}

#[test]
fn sum_type_keeps_variant_order() {
    let sp = spec(
        vec![
            tg_type("InputTextMessageContent", vec![field("message_text", &["String"], true)], &[]),
            tg_type("InputLocationMessageContent", vec![field("latitude", &["Float"], true)], &[]),
            tg_type(
                "InputMessageContent",
                vec![],
                &["InputTextMessageContent", "InputLocationMessageContent"],
            ),
        ],
        vec![],
    );
    let plan = plan_types(&sp);
    let sum = plan
        .iter()
        .find_map(|d| match d {
            TypeDecl::Sum { name, variants, .. } if name == "InputMessageContent" => Some(variants.clone()),
            _ => None,
        })
        .unwrap();
    assert_eq!(sum, names(&["InputTextMessageContent", "InputLocationMessageContent"]));
    let out = generate_types(&sp);
    assert!(out.contains(&lines(&[
        "/// About InputMessageContent.\n",
        "/// See: https://example.org/#inputmessagecontent\n",
        "#[derive(Debug, Clone, Serialize, Deserialize, PartialEq)]\n",
        "#[serde(untagged)]\n",
        "pub enum InputMessageContent {\n",
        "    InputTextMessageContent(InputTextMessageContent),\n",
        "    InputLocationMessageContent(InputLocationMessageContent),\n",
        "}\n",
        "\n"
    ])));
}

#[test]
fn reply_markup_uses_shared_type() {
    let types = table(vec![
        tg_type("InlineKeyboardMarkup", vec![field("inline_keyboard", &["Array of Array of InlineKeyboardButton"], true)], &[]),
        tg_type("ReplyKeyboardRemove", vec![field("remove_keyboard", &["Boolean"], true)], &[]),
    ]);
    let f = field("reply_markup", &["InlineKeyboardMarkup", "ReplyKeyboardRemove"], false);
    assert_eq!(field_rust_type(&f, &types).render(), "Option<ReplyMarkup>");
    let f = field("reply_markup", &["InlineKeyboardMarkup", "ReplyKeyboardRemove"], true);
    assert_eq!(field_rust_type(&f, &types).render(), "ReplyMarkup");
}

#[test]
fn no_declared_result_gives_dynamic_value() {
    let types = table(message_types());
    assert_eq!(build_return_type(&vec![], &types).render(), "serde_json::Value");
    assert_eq!(build_return_type(&names(&["Message", "Boolean"]), &types).render(), "serde_json::Value");
    assert_eq!(build_return_type(&names(&["Message"]), &types).render(), "Message");
    assert_eq!(build_return_type(&names(&["Array of Message"]), &types).render(), "Vec<Message>");
    let sp = spec(message_types(), vec![method("logOut", vec![], &[])]);
    let out = generate_methods(&sp);
    assert!(out.contains("    pub async fn log_out(&self, ) -> Result<serde_json::Value, BotError> {\n"));
    assert!(!out.contains("LogOutParams"));
}

#[test]
fn generation_is_repeatable_and_order_free() {
    let methods = || {
        vec![
            method("getMe", vec![], &["User"]),
            method("close", vec![], &["Boolean"]),
            method("sendMessage", vec![field("text", &["String"], true)], &["Message"]),
        ]
    };
    let a = spec(message_types(), methods());
    let mut rev_types = message_types();
    rev_types.reverse();
    let mut rev_methods = methods();
    rev_methods.reverse();
    let b = spec(rev_types, rev_methods);
    assert_eq!(generate_types(&a), generate_types(&a));
    assert_eq!(generate_methods(&a), generate_methods(&a));
    assert_eq!(generate_types(&a), generate_types(&b));
    assert_eq!(generate_methods(&a), generate_methods(&b));
}

#[test]
fn emitted_names_are_declared() {
    let sp = spec(
        message_types(),
        vec![method("getUpdates", vec![field("offset", &["Integer"], false)], &["Array of Update"])],
    );
    let keys: Vec<String> = sp.types.iter().map(|(k, _)| k.clone()).collect();
    let mut found = Vec::new();
    for d in plan_types(&sp) {
        if let TypeDecl::Struct { fields, .. } = d {
            for f in &fields {
                names_in(&f.ty, &mut found);
            }
        }
    }
    for m in plan_methods(&sp) {
        names_in(&m.result, &mut found);
    }
    assert_eq!(found, names(&["Message", "Update"]));
    assert!(found.iter().all(|n| keys.contains(n)));
}

#[test]
fn type_with_variants_is_only_a_sum() {
    let sp = spec(
        vec![
            tg_type("A", vec![], &[]),
            tg_type("Both", vec![field("x", &["Integer"], true)], &["A"]),
        ],
        vec![],
    );
    let plan = plan_types(&sp);
    assert_eq!(plan.len(), 2);
    assert!(matches!(plan[0], TypeDecl::Marker { .. }));
    match &plan[1] {
        TypeDecl::Sum { name, variants, .. } => {
            assert_eq!(name, "Both");
            assert_eq!(variants, &names(&["A"]));
        }
        _ => panic!("expected a sum type"),
    }
    let out = generate_types(&sp);
    assert!(!out.contains("pub x"));
    assert!(out.contains("pub struct A {}\n"));
}

#[test]
fn optional_exactly_when_not_required() {
    let fields = vec![
        field("a", &["Integer"], true),
        field("b", &["Integer"], false),
        field("c", &["Message"], true),
        field("d", &["Message"], false),
        field("e", &["Array of Message"], false),
        field("f", &["Integer", "String"], false),
        field("g", &["InputFile", "String"], true),
        field("h", &["CallbackGame"], false),
    ];
    let mut types = message_types();
    types.push(tg_type("Mixed", fields.clone(), &[]));
    let sp = spec(types, vec![]);
    let plan = plan_types(&sp);
    let mixed = plan
        .iter()
        .find_map(|d| match d {
            TypeDecl::Struct { name, fields, .. } if name == "Mixed" => Some(fields),
            _ => None,
        })
        .unwrap();
    assert_eq!(mixed.len(), fields.len());
    for (decl, src) in mixed.iter().zip(fields.iter()) {
        assert_eq!(decl.wire_name, src.name);
        assert_eq!(decl.ty.is_optional(), !src.required);
    }
    let rendered: Vec<String> = mixed.iter().map(|d| d.ty.render()).collect();
    assert_eq!(
        rendered,
        names(&[
            "i64",
            "Option<i64>",
            "Message",
            "Option<Box<Message>>",
            "Option<Vec<Message>>",
            "Option<ChatId>",
            "InputFileOrString",
            "Option<CallbackGame>",
        ])
    );
}

#[test]
fn skip_listed_types_not_emitted() {
    let mut types = message_types();
    types.push(tg_type("InputFile", vec![], &[]));
    types.push(tg_type("InputMedia", vec![], &["InputMediaPhoto"]));
    types.push(tg_type("InputMediaPhoto", vec![field("media", &["InputFile", "String"], true)], &[]));
    let sp = spec(types, vec![]);
    let plan = plan_types(&sp);
    let emitted: Vec<String> = plan
        .iter()
        .map(|d| match d {
            TypeDecl::Sum { name, .. } | TypeDecl::Marker { name, .. } | TypeDecl::Struct { name, .. } => name.clone(),
        })
        .collect();
    assert_eq!(emitted, names(&["CallbackGame", "InputMediaPhoto", "Message", "Update"]));
    let out = generate_types(&sp);
    assert!(!out.contains("pub struct InputFile "));
    assert!(!out.contains("pub enum InputMedia "));
    assert!(is_skipped("InputFile"));
    assert!(is_skipped("InputMedia"));
    assert!(!is_skipped("InputMediaPhoto"));
}

#[test]
fn declarations_in_name_order() {
    let sp = spec(
        vec![
            tg_type("b", vec![], &[]),
            tg_type("Zeta", vec![], &[]),
            tg_type("Alpha", vec![], &[]),
            tg_type("Al", vec![], &[]),
        ],
        vec![
            method("sendPhoto", vec![], &["Boolean"]),
            method("close", vec![], &["Boolean"]),
            method("getMe", vec![], &["Boolean"]),
        ],
    );
    let order: Vec<String> = plan_types(&sp)
        .iter()
        .map(|d| match d {
            TypeDecl::Sum { name, .. } | TypeDecl::Marker { name, .. } | TypeDecl::Struct { name, .. } => name.clone(),
        })
        .collect();
    assert_eq!(order, names(&["Al", "Alpha", "Zeta", "b"]));
    let morder: Vec<String> = plan_methods(&sp).iter().map(|m| m.name.clone()).collect();
    assert_eq!(morder, names(&["close", "getMe", "sendPhoto"]));
    let out = generate_methods(&sp);
    let c = out.find("fn close(").unwrap();
    let g = out.find("fn get_me(").unwrap();
    let p = out.find("fn send_photo(").unwrap();
    assert!(c < g && g < p);
}

#[test]
fn empty_schema_gives_headers_only() {
    let sp = spec(vec![], vec![]);
    assert_eq!(generate_types(&sp), TYPES_HEADER);
    assert_eq!(generate_methods(&sp), METHODS_HEADER);
}

#[test]
fn marker_and_struct_text() {
    let sp = spec(message_types(), vec![]);
    let expected = format!(
        "{}{}",
        TYPES_HEADER,
        lines(&[
            "/// About CallbackGame.\n",
            "/// See: https://example.org/#callbackgame\n",
            "#[derive(Debug, Clone, Serialize, Deserialize, PartialEq, Default)]\n",
            "pub struct CallbackGame {}\n",
            "\n",
            "/// About Message.\n",
            "/// See: https://example.org/#message\n",
            "#[derive(Debug, Clone, Serialize, Deserialize, PartialEq)]\n",
            "pub struct Message {\n",
            "    /// The message_id field.\n",
            "    pub message_id: i64,\n",
            "}\n",
            "\n",
            "/// About Update.\n",
            "/// See: https://example.org/#update\n",
            "#[derive(Debug, Clone, Serialize, Deserialize, PartialEq)]\n",
            "pub struct Update {\n",
            "    /// The message field.\n",
            "    #[serde(skip_serializing_if = \"Option::is_none\")]\n",
            "    pub message: Option<Box<Message>>,\n",
            "}\n",
            "\n",
        ])
    );
    assert_eq!(generate_types(&sp), expected);
}

#[test]
fn keyword_and_camel_field_names() {
    assert_eq!(rust_field_name("type"), "r#type");
    assert_eq!(rust_field_name("self"), "r#self");
    assert_eq!(rust_field_name("move"), "r#move");
    assert_eq!(rust_field_name("chatId"), "chat_id");
    assert_eq!(rust_field_name("chat_id"), "chat_id");
    let sp = spec(
        vec![tg_type("Dice", vec![field("type", &["String"], true), field("emojiValue", &["Integer"], true)], &[])],
        vec![],
    );
    let out = generate_types(&sp);
    assert!(out.contains("    #[serde(rename = \"type\")]\n    pub r#type: String,\n"));
    assert!(out.contains("    #[serde(rename = \"emojiValue\")]\n    pub emoji_value: i64,\n"));
}

#[test]
fn method_and_params_names() {
    assert_eq!(method_fn_name("sendMessage"), "send_message");
    assert_eq!(method_fn_name("getMe"), "get_me");
    assert_eq!(method_params_name("sendMessage"), "SendMessageParams");
    assert_eq!(method_params_name("getMe"), "GetMeParams");
}

#[test]
fn array_references() {
    assert!(is_tg_array("Array of PhotoSize"));
    assert!(!is_tg_array("PhotoSize"));
    assert!(!is_tg_array("Array o"));
    assert_eq!(strip_array("Array of PhotoSize"), "PhotoSize");
    assert_eq!(strip_array("Array of Array of PhotoSize"), "Array of PhotoSize");
    assert_eq!(strip_array("PhotoSize"), "PhotoSize");
    let types = table(vec![]);
    assert_eq!(tg_to_rust("Array of Array of PhotoSize", false, &types).render(), "Vec<Vec<PhotoSize>>");
    assert_eq!(tg_to_rust("Array of Integer", true, &types).render(), "Option<Vec<i64>>");
}

#[test]
fn scalar_references() {
    let types = table(vec![]);
    assert_eq!(tg_to_rust("Integer", false, &types).render(), "i64");
    assert_eq!(tg_to_rust("Float", false, &types).render(), "f64");
    assert_eq!(tg_to_rust("Boolean", false, &types).render(), "bool");
    assert_eq!(tg_to_rust("String", false, &types).render(), "String");
    assert_eq!(tg_to_rust("Integer", true, &types).render(), "Option<i64>");
    assert_eq!(tg_to_rust("Boolean", true, &types).render(), "Option<bool>");
    assert_eq!(tg_to_rust("InputFile", false, &types).render(), "InputFile");
    assert_eq!(tg_to_rust("Unknown", true, &types).render(), "Option<Unknown>");
}

#[test]
fn optional_sum_type_is_boxed() {
    let types = table(vec![
        tg_type("A", vec![field("x", &["Integer"], true)], &[]),
        tg_type("U", vec![], &["A"]),
        tg_type("M", vec![], &[]),
    ]);
    assert_eq!(tg_to_rust("U", true, &types).render(), "Option<Box<U>>");
    assert_eq!(tg_to_rust("M", true, &types).render(), "Option<M>");
    assert_eq!(tg_to_rust("U", false, &types).render(), "U");
}

#[test]
fn union_field_patterns() {
    let types = table(vec![]);
    let t = |name: &str, ts: &[&str], req: bool| field_rust_type(&field(name, ts, req), &types).render();
    assert_eq!(t("chat_id", &["String", "Integer"], true), "ChatId");
    assert_eq!(t("chat_id", &["Integer", "String"], false), "Option<ChatId>");
    assert_eq!(t("chat_id", &["Integer", "String", "Integer"], true), "ChatId");
    assert_eq!(t("photo", &["InputFile", "String"], true), "InputFileOrString");
    assert_eq!(t("photo", &["String", "InputFile"], false), "Option<InputFileOrString>");
    assert_eq!(t("photo", &["InputFile", "String", "Integer"], true), "InputFile");
    assert_eq!(t("value", &["Integer", "Boolean"], true), "i64");
    assert_eq!(t("value", &["Integer", "Boolean"], false), "Option<i64>");
    assert_eq!(t("empty", &[], false), "serde_json::Value");
    assert_eq!(t("reply_markup", &["ForceReply"], false), "Option<ForceReply>");
}

#[test]
fn options_only_and_plain_parameters() {
    let sp = spec(
        message_types(),
        vec![
            method("getUpdates", vec![field("offset", &["Integer"], false), field("allowed_updates", &["Array of String"], false)], &["Array of Update"]),
            method("forwardMessages", vec![field("message_ids", &["Array of Integer"], true), field("from_chat_id", &["Integer", "String"], true), field("photo", &["InputFile", "String"], true)], &["Message"]),
        ],
    );
    let out = generate_methods(&sp);
    assert!(out.contains("    pub async fn get_updates(&self, params: Option<&GetUpdatesParams>) -> Result<Vec<Update>, BotError> {\n"));
    assert!(out.contains("    pub allowed_updates: Option<Vec<String>>,\n"));
    assert!(out.contains("    pub offset: Option<i64>,\n"));
    assert!(out.contains("    pub async fn forward_messages(&self, message_ids: Vec<i64>, from_chat_id: impl Into<ChatId>, photo: impl Into<InputFileOrString>) -> Result<Message, BotError> {\n"));
    assert!(out.contains("        form[\"message_ids\"] = serde_json::to_value(message_ids).unwrap_or_default();\n"));
    assert!(out.contains("        form[\"photo\"] = serde_json::to_value(photo.into()).unwrap_or_default();\n"));
    assert!(!out.contains("ForwardMessagesParams"));
}

#[test]
fn option_field_in_options_struct_not_doubled() {
    let sp = spec(
        message_types(),
        vec![method("editMessage", vec![field("chat_id", &["Integer", "String"], false), field("message", &["Message"], false)], &["Boolean"])],
    );
    let out = generate_methods(&sp);
    assert!(out.contains("    pub chat_id: Option<ChatId>,\n"));
    assert!(out.contains("    pub message: Option<Box<Message>>,\n"));
    assert!(!out.contains("Option<Option<"));
}

#[test]
fn descriptions_flattened_and_joined() {
    let mut t = tg_type("Chat", vec![field("id", &["Integer"], true)], &[]);
    t.description = names(&["First line.", "Second line."]);
    t.fields[0].description = s("Unique id.\nMay be large.");
    let out = generate_types(&spec(vec![t], vec![]));
    assert!(out.contains("/// First line.\n/// Second line.\n/// See: https://example.org/#chat\n"));
    assert!(out.contains("    /// Unique id. May be large.\n    pub id: i64,\n"));
    let mut m = method("getChat", vec![], &["Chat"]);
    m.description = names(&["Gets a chat.", "Returns it."]);
    let out = generate_methods(&spec(vec![], vec![m]));
    assert!(out.contains("    /// Gets a chat.\n    /// Returns it.\n    /// See: https://example.org/#getchat\n"));
}

#[test]
fn keys_sorted_by_code_point() {
    let entries: Vec<(String, u8)> = vec![(s("beta"), 1), (s("Alpha"), 2), (s("alpha"), 3), (s("Al"), 4), (s(""), 5)];
    assert_eq!(sorted_keys(&entries), names(&["", "Al", "Alpha", "alpha", "beta"]));
    let none: Vec<(String, u8)> = vec![];
    assert!(sorted_keys(&none).is_empty());
}

#[test]
fn input_media_kinds() {
    assert_eq!(InputMedia::from_payload_type("InputMediaPhoto"), Some(InputMedia::Photo));
    assert_eq!(InputMedia::from_payload_type("InputMediaAnimation"), Some(InputMedia::Animation));
    assert_eq!(InputMedia::from_payload_type("InputMedia"), None);
    assert_eq!(InputMedia::Video.payload_type(), "InputMediaVideo");
    assert_eq!(InputMedia::Document.tag(), "document");
    assert_eq!(InputMedia::Audio.tag(), "audio");
}

#[test]
fn first_type_fallback_detected() {
    assert!(uses_first_type_fallback(&field("value", &["Integer", "Boolean"], true)));
    assert!(!uses_first_type_fallback(&field("value", &["Integer"], true)));
    assert!(!uses_first_type_fallback(&field("chat_id", &["String", "Integer"], true)));
    assert!(!uses_first_type_fallback(&field("photo", &["InputFile", "String"], false)));
    assert!(!uses_first_type_fallback(&field("reply_markup", &["ForceReply", "ReplyKeyboardRemove"], false)));
}

#[test]
fn duplicate_keys_detected() {
    let mut sp = spec(message_types(), vec![method("getMe", vec![], &["User"])]);
    assert!(sp.has_unique_keys());
    sp.types.push((s("Message"), tg_type("Message", vec![], &[])));
    assert!(!sp.has_unique_keys());
}

#[test]
fn name_coverage_checked() {
    let covered = spec(
        message_types(),
        vec![method("getUpdates", vec![field("offset", &["Integer"], false)], &["Array of Update"])],
    );
    assert!(names_covered(&covered));
    let mut types = message_types();
    types.push(tg_type("Chat", vec![field("photo", &["ChatPhoto"], false)], &[]));
    assert!(!names_covered(&spec(types, vec![])));
    let mut types = message_types();
    types.push(tg_type("MaybeMessage", vec![], &["Message", "InaccessibleMessage"]));
    assert!(!names_covered(&spec(types, vec![])));
    let bad_result = spec(message_types(), vec![method("getChat", vec![], &["Array of Chat"])]);
    assert!(!names_covered(&bad_result));
    let scalars = spec(
        vec![tg_type("P", vec![field("a", &["Array of Array of Float"], true), field("b", &["Boolean", "String"], true)], &[])],
        vec![],
    );
    assert!(names_covered(&scalars));
}
