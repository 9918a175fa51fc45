use vstd::prelude::*;
use crate::config::{
    CliConfig, ConfigModel, NullableConfig, default_model, field_name, overrides_layer,
    record_layer, required_fields,
};
use crate::layer::{LayerModel, NUM_FIELDS, empty_layer, is_complete, merge_spec};
use crate::layering::{
    ConfigFiles, ErrorModel, FileSource, decode, file_layer, first_missing, load_files,
    non_default_mapping, resolve,
};
use crate::toml_source::{toml_decodes, toml_layer};
use crate::value::ValueModel;

verus! {

/// A record decoded from a complete mapping sets every field to the mapping's
/// value.
pub proof fn lemma_decode_keeps_values(m: LayerModel)
    requires
        is_complete(m),
        decode(m) is Ok,
    ensures
        record_layer(decode(m)->Ok_0) == m,
{
    assert(m[0] is Some && m[1] is Some && m[2] is Some);
    assert(record_layer(decode(m)->Ok_0) =~= m);
}

/// When resolution succeeds, each field of the record holds the value of the
/// highest layer that sets it, the defaults lying beneath all others.
pub proof fn lemma_resolved_field(cli: CliConfig, files: ConfigFiles, i: int)
    requires
        0 <= i < NUM_FIELDS,
        resolve(cli, files) is Ok,
    ensures
        load_files(cli, files) is Ok,
        record_layer(resolve(cli, files)->Ok_0)[i] == merge_spec(
            record_layer(default_model()),
            non_default_mapping(cli, load_files(cli, files)->Ok_0),
        )[i],
{
    let f = load_files(cli, files)->Ok_0;
    let full = merge_spec(record_layer(default_model()), non_default_mapping(cli, f));
    assert(full[0] is Some && full[1] is Some && full[2] is Some);
    assert(is_complete(full));
    lemma_decode_keeps_values(full);
}

/// With no configuration file and no command-line override, resolution fails
/// and names the required field: the compiled-in defaults never satisfy a
/// requirement.
pub proof fn law_defaults_alone_miss_required(cli: CliConfig, files: ConfigFiles)
    requires
        cli.no_config || (files.dir_exists && files.layer1.contents is None
            && files.layer2.contents is None),
        cli.nullable_config.placeholder1 is None,
        cli.nullable_config.placeholder2 is None,
        cli.nullable_config.required1 is None,
    ensures
        resolve(cli, files) == Err::<ConfigModel, ErrorModel>(
            ErrorModel::MissingRequiredField(field_name(2)),
        ),
{
    assert(merge_spec(empty_layer(), empty_layer()) =~= empty_layer());
    let m = non_default_mapping(cli, empty_layer());
    assert(m =~= empty_layer());
    assert(seq![2int].drop_first() =~= Seq::<int>::empty());
    assert(first_missing(m, seq![2int]) == Some(2int));
}

/// With no configuration file, and overrides for the required field alone,
/// resolution gives the compiled-in default record with that field as given.
pub proof fn law_defaults_fill_the_rest(cli: CliConfig, files: ConfigFiles, s: Seq<char>)
    requires
        cli.no_config || (files.dir_exists && files.layer1.contents is None
            && files.layer2.contents is None),
        cli.nullable_config.placeholder1 is None,
        cli.nullable_config.placeholder2 is None,
        cli.nullable_config.required1 matches Some(r) && r@ == s,
    ensures
        resolve(cli, files) == Ok::<ConfigModel, ErrorModel>(
            ConfigModel { required1: s, ..default_model() },
        ),
{
    assert(merge_spec(empty_layer(), empty_layer()) =~= empty_layer());
    let m = non_default_mapping(cli, empty_layer());
    assert(seq![2int].drop_first() =~= Seq::<int>::empty());
    assert(m[2] is Some);
    assert(first_missing(m, Seq::<int>::empty()) is None);
    assert(first_missing(m, seq![2int]) is None);
    let full = merge_spec(record_layer(default_model()), m);
    assert(full[0] == Some(ValueModel::Integer(42)));
    assert(decode(full) == Ok::<ConfigModel, ErrorModel>(
        ConfigModel { required1: s, ..default_model() },
    ));
}

/// A layer that sets a field decides its value over every layer beneath it;
/// a layer that leaves the field unset changes nothing.
pub proof fn law_upper_layer_wins(lower: LayerModel, upper: LayerModel, i: int)
    requires
        0 <= i < NUM_FIELDS,
    ensures
        upper[i] is Some ==> merge_spec(lower, upper)[i] == upper[i],
        upper[i] is None ==> merge_spec(lower, upper)[i] == lower[i],
{
}

/// When both configuration files set a field and the command line does not,
/// the record holds the value of the second file.
pub proof fn law_later_file_wins(cli: CliConfig, files: ConfigFiles, i: int, v: ValueModel)
    requires
        0 <= i < NUM_FIELDS,
        !cli.no_config,
        file_layer(files.layer1) matches Some(a) && a[i] is Some,
        file_layer(files.layer2) matches Some(b) && b[i] == Some(v),
        overrides_layer(cli.nullable_config)[i] is None,
        resolve(cli, files) is Ok,
    ensures
        record_layer(resolve(cli, files)->Ok_0)[i] == Some(v),
{
    lemma_resolved_field(cli, files, i);
}

/// An override given on the command line decides the field's value, whatever
/// the files set: its presence counts, not whether it differs from the
/// default.
pub proof fn law_cli_override_wins(cli: CliConfig, files: ConfigFiles, i: int, v: ValueModel)
    requires
        0 <= i < NUM_FIELDS,
        overrides_layer(cli.nullable_config)[i] == Some(v),
        resolve(cli, files) is Ok,
    ensures
        record_layer(resolve(cli, files)->Ok_0)[i] == Some(v),
{
    lemma_resolved_field(cli, files, i);
}

/// Value `v` has the type of field `i`.
pub open spec fn fits(i: int, v: ValueModel) -> bool {
    if i == 0 {
        v matches ValueModel::Integer(n) && 0 <= n <= u32::MAX
    } else {
        v is Text
    }
}

/// Every value that the mapping sets has its field's type.
pub open spec fn well_typed(m: LayerModel) -> bool {
    &&& m.len() == NUM_FIELDS
    &&& forall|i: int| 0 <= i < NUM_FIELDS ==> (#[trigger] m[i] matches Some(v) ==> fits(i, v))
}

/// A complete, well-typed mapping decodes, keeping every value.
pub proof fn lemma_well_typed_decodes(m: LayerModel)
    requires
        is_complete(m),
        well_typed(m),
    ensures
        decode(m) is Ok,
        record_layer(decode(m)->Ok_0) == m,
{
    assert(m[0] is Some && m[1] is Some && m[2] is Some);
    assert(fits(0, m[0]->0) && fits(1, m[1]->0) && fits(2, m[2]->0));
    lemma_decode_keeps_values(m);
}

/// When the files' values have their fields' types and the required fields
/// are set, resolution succeeds, and a field given on the command line takes
/// the value given there, whatever the files set.
pub proof fn law_cli_override_resolves(cli: CliConfig, files: ConfigFiles, i: int, v: ValueModel)
    requires
        0 <= i < NUM_FIELDS,
        load_files(cli, files) matches Ok(f) && well_typed(f) && first_missing(
            non_default_mapping(cli, f),
            required_fields(),
        ) is None,
        overrides_layer(cli.nullable_config)[i] == Some(v),
    ensures
        resolve(cli, files) is Ok,
        record_layer(resolve(cli, files)->Ok_0)[i] == Some(v),
{
    let f = load_files(cli, files)->Ok_0;
    let over = overrides_layer(cli.nullable_config);
    let m = non_default_mapping(cli, f);
    let full = merge_spec(record_layer(default_model()), m);
    assert forall|j: int| 0 <= j < NUM_FIELDS implies (#[trigger] full[j] matches Some(w) ==> fits(j, w)) by {
        assert(f[j] matches Some(w) ==> fits(j, w));
    }
    assert(full[0] is Some && full[1] is Some && full[2] is Some);
    assert(is_complete(full));
    assert(well_typed(full));
    lemma_well_typed_decodes(full);
}

/// An override equal to the compiled-in default still decides the field's
/// value over a file that sets it to something else: its presence counts, not
/// whether it differs from the default.
pub proof fn law_override_equal_to_default_wins(cli: CliConfig, files: ConfigFiles, i: int)
    requires
        0 <= i < NUM_FIELDS,
        load_files(cli, files) matches Ok(f) && well_typed(f) && first_missing(
            non_default_mapping(cli, f),
            required_fields(),
        ) is None,
        overrides_layer(cli.nullable_config)[i] == record_layer(default_model())[i],
    ensures
        resolve(cli, files) is Ok,
        record_layer(resolve(cli, files)->Ok_0)[i] == record_layer(default_model())[i],
{
    law_cli_override_resolves(cli, files, i, record_layer(default_model())[i]->0);
}

/// Resolution is a function of its inputs: the same command line and the same
/// files give the same outcome.
pub proof fn law_resolution_is_deterministic(
    cli1: CliConfig,
    files1: ConfigFiles,
    cli2: CliConfig,
    files2: ConfigFiles,
)
    requires
        cli1 == cli2,
        files1 == files2,
    ensures
        resolve(cli1, files1) == resolve(cli2, files2),
{
}

/// A file whose text names no schema field (an empty file among them) resolves
/// exactly as an absent file does, and never fails.
pub proof fn law_fieldless_file_is_absent(f: FileSource)
    requires
        f.contents matches Some(t) && toml_decodes(t@) && toml_layer(t@) == empty_layer(),
    ensures
        file_layer(f) == file_layer(FileSource { contents: None, ..f }),
        file_layer(f) == Some(empty_layer()),
{
}

/// Putting a file that names no schema field in place of an absent one, as
/// either configuration file, changes neither the outcome of resolution nor
/// whether it fails.
pub proof fn law_fieldless_file_changes_nothing(cli: CliConfig, files: ConfigFiles, f: FileSource)
    requires
        f.contents matches Some(t) && toml_decodes(t@) && toml_layer(t@) == empty_layer(),
    ensures
        resolve(cli, ConfigFiles { layer1: f, ..files }) == resolve(
            cli,
            ConfigFiles { layer1: FileSource { contents: None, ..f }, ..files },
        ),
        resolve(cli, ConfigFiles { layer2: f, ..files }) == resolve(
            cli,
            ConfigFiles { layer2: FileSource { contents: None, ..f }, ..files },
        ),
{
    law_fieldless_file_is_absent(f);
}

} // verus!
