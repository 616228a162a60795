//! Generation of `StatContainer` impls from type declarations. Each type
//! below carries, written out by hand, the impl that the generator produces
//! for its declaration, and each test checks both the generated text and
//! the behaviour of that impl.

use immediate_stats::{
    reset_enum, reset_struct, stat_container_derive, Declaration, Diagnostic, FieldOptions,
    FieldRef, FieldShape, GenerateError, Ratio,
    ResetPlan, ShapeData, Stat, StatContainer, VariantPlan, VariantShape,
};

fn named(name: &str, ty: &str, attrs: &[&str]) -> FieldShape {
    FieldShape::named(
        name.to_string(),
        ty.to_string(),
        attrs.iter().map(|a| a.to_string()).collect(),
    )
}

fn positional(ty: &str, attrs: &[&str]) -> FieldShape {
    FieldShape::positional(ty.to_string(), attrs.iter().map(|a| a.to_string()).collect())
}

fn declaration(ident: &str, data: ShapeData) -> Declaration {
    Declaration {
        ident: ident.to_string(),
        data,
    }
}

fn modified(base: i32) -> Stat<i32> {
    Stat {
        base,
        bonus: 3,
        multiplier: Ratio::new(3, 2),
    }
}

#[derive(PartialEq, Debug)]
struct MyStat;

impl StatContainer for MyStat {
    fn reset_modifiers(&mut self) {}
}

#[derive(PartialEq, Debug)]
struct Movement {
    speed: Stat<i32>,
    custom: MyStat,
    other: bool,
}

impl StatContainer for Movement {
    fn reset_modifiers(&mut self) {
        self.speed.reset_modifiers();
        self.custom.reset_modifiers();
    }
}

#[test]
fn derive_reset() {
    let decl = declaration(
        "Movement",
        ShapeData::Struct(vec![
            named("speed", "iStat", &[]),
            named("custom", "MyStat", &[]),
            named("other", "bool", &[]),
        ]),
    );
    let generated = stat_container_derive(&decl).unwrap();
    assert_eq!(
        generated.plan,
        ResetPlan::Fields(vec![
            FieldRef::Named("speed".to_string()),
            FieldRef::Named("custom".to_string()),
        ])
    );
    assert_eq!(
        generated.code,
        "impl StatContainer for Movement { fn reset_modifiers(&mut self) { \
         self.speed.reset_modifiers(); self.custom.reset_modifiers(); } }"
    );
    assert!(generated.diagnostics.is_empty());

    for base in 0..10 {
        let mut movement = Movement {
            speed: modified(base),
            custom: MyStat,
            other: true,
        };

        movement.reset_modifiers();

        assert_eq!(
            movement,
            Movement {
                speed: Stat::new(base),
                custom: MyStat,
                other: true
            }
        );
    }
}

#[derive(PartialEq, Debug)]
struct MaxHealth(Stat<i32>, bool);

impl StatContainer for MaxHealth {
    fn reset_modifiers(&mut self) {
        self.0.reset_modifiers();
    }
}

#[test]
fn reset_tuple_struct() {
    let decl = declaration(
        "MaxHealth",
        ShapeData::Struct(vec![positional("iStat", &[]), positional("bool", &[])]),
    );
    let generated = stat_container_derive(&decl).unwrap();
    assert_eq!(generated.plan, ResetPlan::Fields(vec![FieldRef::Index(0)]));
    assert_eq!(
        generated.code,
        "impl StatContainer for MaxHealth { fn reset_modifiers(&mut self) { \
         self.0.reset_modifiers(); } }"
    );

    for base in 0..10 {
        let mut max_health = MaxHealth(modified(base), true);

        max_health.reset_modifiers();

        assert_eq!(max_health.0, Stat::new(base));
        assert!(max_health.1);
    }
}

#[derive(PartialEq, Debug)]
struct Health {
    max: MaxHealth,
    current: i32,
}

impl StatContainer for Health {
    fn reset_modifiers(&mut self) {
        self.max.reset_modifiers();
    }
}

#[test]
fn reset_with_attribute() {
    let decl = declaration(
        "Health",
        ShapeData::Struct(vec![
            named("max", "MaxHealth", &["stat"]),
            named("current", "i32", &[]),
        ]),
    );
    let generated = stat_container_derive(&decl).unwrap();
    assert_eq!(
        generated.plan,
        ResetPlan::Fields(vec![FieldRef::Named("max".to_string())])
    );
    assert_eq!(
        generated.code,
        "impl StatContainer for Health { fn reset_modifiers(&mut self) { \
         self.max.reset_modifiers(); } }"
    );
    assert!(generated.diagnostics.is_empty());

    for base in 0..10 {
        let mut health = Health {
            max: MaxHealth(modified(base), true),
            current: base,
        };

        health.reset_modifiers();

        assert_eq!(health.max.0, Stat::new(base));
        assert_eq!(health.current, base);
    }
}

#[derive(PartialEq, Debug)]
struct PartialReset {
    ignored: Stat<i64>,
    reset: Stat<i64>,
}

impl StatContainer for PartialReset {
    fn reset_modifiers(&mut self) {
        self.reset.reset_modifiers();
    }
}

#[test]
fn reset_ignored() {
    let decl = declaration(
        "PartialReset",
        ShapeData::Struct(vec![
            named("ignored", "fStat", &["stat_ignore"]),
            named("reset", "fStat", &[]),
        ]),
    );
    let generated = stat_container_derive(&decl).unwrap();
    assert_eq!(
        generated.plan,
        ResetPlan::Fields(vec![FieldRef::Named("reset".to_string())])
    );

    for base in 0..10 {
        let stat = Stat {
            base: base as i64,
            bonus: 3,
            multiplier: Ratio::new(3, 2),
        };

        let mut partial = PartialReset {
            ignored: stat,
            reset: stat,
        };

        partial.reset_modifiers();

        assert_eq!(partial.ignored, stat);
        assert_eq!(partial.reset, Stat::new(base as i64));
    }
}

#[allow(dead_code)]
#[derive(PartialEq, Debug)]
enum EnumStat {
    Named { stat: Stat<i32>, other: u8 },
    Unnamed(Stat<i32>, u8),
    Other,
}

impl StatContainer for EnumStat {
    fn reset_modifiers(&mut self) {
        match self {
            Self::Named { stat, .. } => {
                stat.reset_modifiers();
            }
            Self::Unnamed { 0: f0, .. } => {
                f0.reset_modifiers();
            }
            _ => {}
        }
    }
}

fn enum_stat_declaration() -> Declaration {
    declaration(
        "EnumStat",
        ShapeData::Enum(vec![
            VariantShape {
                ident: "Named".to_string(),
                fields: vec![named("stat", "iStat", &[]), named("other", "u8", &[])],
            },
            VariantShape {
                ident: "Unnamed".to_string(),
                fields: vec![positional("iStat", &[]), positional("u8", &[])],
            },
            VariantShape {
                ident: "Other".to_string(),
                fields: vec![],
            },
        ]),
    )
}

const ENUM_STAT_CODE: &str = "impl StatContainer for EnumStat { fn reset_modifiers(&mut self) { \
     match self { Self::Named { stat, .. } => { stat.reset_modifiers(); } \
     Self::Unnamed { 0: f0, .. } => { f0.reset_modifiers(); } _ => {} } } }";

#[test]
fn reset_enum_named() {
    let generated = stat_container_derive(&enum_stat_declaration()).unwrap();
    assert_eq!(generated.code, ENUM_STAT_CODE);

    for base in 0..10 {
        let mut stat = EnumStat::Named {
            stat: modified(base),
            other: 0,
        };

        stat.reset_modifiers();

        assert_eq!(
            stat,
            EnumStat::Named {
                stat: Stat::new(base),
                other: 0,
            }
        );
    }
}

#[test]
fn reset_enum_unnamed() {
    let generated = stat_container_derive(&enum_stat_declaration()).unwrap();
    assert_eq!(
        generated.plan,
        ResetPlan::Arms(vec![
            VariantPlan {
                ident: "Named".to_string(),
                fields: vec![FieldRef::Named("stat".to_string())],
            },
            VariantPlan {
                ident: "Unnamed".to_string(),
                fields: vec![FieldRef::Index(0)],
            },
        ])
    );

    for base in 0..10 {
        let mut stat = EnumStat::Unnamed(modified(base), 0);

        stat.reset_modifiers();

        assert_eq!(stat, EnumStat::Unnamed(Stat::new(base), 0));
    }
}

#[test]
fn unit_variant_reset_is_a_no_op() {
    let mut stat = EnumStat::Other;
    stat.reset_modifiers();
    assert_eq!(stat, EnumStat::Other);
}

#[test]
fn union_is_refused() {
    let decl = declaration("Overlap", ShapeData::Union);
    assert_eq!(stat_container_derive(&decl), Err(GenerateError::Union));
}

#[test]
fn no_stat_fields_warns_and_resets_nothing() {
    let decl = declaration(
        "Plain",
        ShapeData::Struct(vec![named("a", "u8", &[]), named("b", "bool", &[])]),
    );
    let generated = stat_container_derive(&decl).unwrap();
    assert_eq!(generated.plan, ResetPlan::Fields(vec![]));
    assert_eq!(generated.diagnostics, vec![Diagnostic::NoStatFields]);
    assert_eq!(
        generated.code,
        "impl StatContainer for Plain { fn reset_modifiers(&mut self) { } }"
    );

    let unit_only = declaration(
        "Mode",
        ShapeData::Enum(vec![
            VariantShape {
                ident: "On".to_string(),
                fields: vec![],
            },
            VariantShape {
                ident: "Off".to_string(),
                fields: vec![],
            },
        ]),
    );
    let generated = stat_container_derive(&unit_only).unwrap();
    assert_eq!(generated.plan, ResetPlan::Arms(vec![]));
    assert_eq!(generated.diagnostics, vec![Diagnostic::NoStatFields]);
    assert_eq!(
        generated.code,
        "impl StatContainer for Mode { fn reset_modifiers(&mut self) { } }"
    );
}

#[test]
fn both_marks_exclude_and_warn() {
    let decl = declaration(
        "Conflicted",
        ShapeData::Struct(vec![
            named("kept", "Stat", &[]),
            named("both", "Stat", &["stat", "stat_ignore"]),
        ]),
    );
    let generated = stat_container_derive(&decl).unwrap();
    assert_eq!(
        generated.plan,
        ResetPlan::Fields(vec![FieldRef::Named("kept".to_string())])
    );
    assert_eq!(
        generated.diagnostics,
        vec![
            Diagnostic::ConflictingAttributes {
                variant: None,
                field: 1
            },
            Diagnostic::RedundantInclude {
                variant: None,
                field: 1
            },
        ]
    );
}

#[test]
fn conflict_in_enum_variant_names_the_variant() {
    let decl = declaration(
        "Choice",
        ShapeData::Enum(vec![
            VariantShape {
                ident: "A".to_string(),
                fields: vec![positional("u8", &[])],
            },
            VariantShape {
                ident: "B".to_string(),
                fields: vec![positional("u8", &[]), positional("Gauge", &["stat_ignore", "stat"])],
            },
        ]),
    );
    let generated = stat_container_derive(&decl).unwrap();
    assert_eq!(generated.plan, ResetPlan::Arms(vec![]));
    assert_eq!(
        generated.diagnostics,
        vec![
            Diagnostic::ConflictingAttributes {
                variant: Some(1),
                field: 1
            },
            Diagnostic::NoStatFields,
        ]
    );
}

#[test]
fn redundant_mark_warns_but_keeps_field() {
    let decl = declaration(
        "Armour",
        ShapeData::Struct(vec![named("rating", "Stat<i64>", &["stat"])]),
    );
    let generated = stat_container_derive(&decl).unwrap();
    assert_eq!(
        generated.plan,
        ResetPlan::Fields(vec![FieldRef::Named("rating".to_string())])
    );
    assert_eq!(
        generated.diagnostics,
        vec![Diagnostic::RedundantInclude {
            variant: None,
            field: 0
        }]
    );
}

#[test]
fn positional_pattern_skips_leading_fields() {
    let mut fields: Vec<FieldShape> = (0..12).map(|_| positional("u8", &[])).collect();
    fields.push(positional("iStat", &[]));
    let decl = declaration(
        "Wide",
        ShapeData::Enum(vec![VariantShape {
            ident: "Many".to_string(),
            fields,
        }]),
    );
    let generated = stat_container_derive(&decl).unwrap();
    assert_eq!(
        generated.code,
        "impl StatContainer for Wide { fn reset_modifiers(&mut self) { \
         match self { Self::Many { 12: f12, .. } => { f12.reset_modifiers(); } _ => {} } } }"
    );
}

#[test]
fn type_name_match_is_textual() {
    // The marker is matched anywhere in the type's text, so a type that
    // merely contains it is taken for a stat unless marked otherwise.
    let options = FieldOptions::from_field(&named("log", "StatisticsTracker", &[]));
    assert!(options.stat_type);
    assert!(options.is_stat());

    let lower = FieldOptions::from_field(&named("state", "state::Machine", &[]));
    assert!(!lower.stat_type);
    assert!(!lower.is_stat());

    let generic = FieldOptions::from_field(&positional("Option < Stat < i32 > >", &[]));
    assert!(generic.stat_type);
    assert_eq!(generic.ident, None);
}

#[test]
fn marks_decide_classification() {
    let forced = FieldOptions::from_field(&named("max", "MaxHealth", &["stat"]));
    assert!(forced.marked_stat && !forced.marked_ignore && forced.is_stat());

    let ignored = FieldOptions::from_field(&named("hp", "Stat", &["stat_ignore"]));
    assert!(ignored.stat_type && ignored.marked_ignore && !ignored.is_stat());

    let unrelated = FieldOptions::from_field(&named("hp", "Stat", &["doc", "serde"]));
    assert!(!unrelated.marked_stat && !unrelated.marked_ignore && unrelated.is_stat());
}

#[test]
fn reset_struct_and_enum_keep_declaration_order() {
    let fields = vec![
        named("c", "Stat", &[]),
        named("a", "u8", &[]),
        named("b", "Gauge", &["stat"]),
    ];
    assert_eq!(
        reset_struct(&fields),
        vec![
            FieldRef::Named("c".to_string()),
            FieldRef::Named("b".to_string())
        ]
    );

    let variants = vec![
        VariantShape {
            ident: "Z".to_string(),
            fields: vec![positional("bool", &[]), positional("Stat", &[])],
        },
        VariantShape {
            ident: "Y".to_string(),
            fields: vec![],
        },
        VariantShape {
            ident: "X".to_string(),
            fields: vec![positional("Stat", &[])],
        },
    ];
    assert_eq!(
        reset_enum(&variants),
        vec![
            VariantPlan {
                ident: "Z".to_string(),
                fields: vec![FieldRef::Index(1)],
            },
            VariantPlan {
                ident: "X".to_string(),
                fields: vec![FieldRef::Index(0)],
            },
        ]
    );
}
