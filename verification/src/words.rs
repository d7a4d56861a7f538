//! The fixed words this tool speaks and recognizes: init-system and
//! compose subcommands, probe answers, manifest file names, command-line
//! flags and ledger tokens.  Each word is given once as a byte sequence
//! at the spec level and once as a verified producer of those bytes.

use vstd::prelude::*;

verus! {

/// The text `active`.
pub open spec fn w_active() -> Seq<u8> {
    seq![97u8, 99u8, 116u8, 105u8, 118u8, 101u8]
}

/// The bytes of `active`.
pub fn w_active_bytes() -> (r: Vec<u8>)
    ensures
        r@ == w_active(),
{
    let a: [u8; 6] = [97u8, 99u8, 116u8, 105u8, 118u8, 101u8];
    assert(a@ =~= w_active());
    vstd::slice::slice_to_vec(a.as_slice())
}

/// The text `inactive`.
pub open spec fn w_inactive() -> Seq<u8> {
    seq![105u8, 110u8, 97u8, 99u8, 116u8, 105u8, 118u8, 101u8]
}

/// The bytes of `inactive`.
pub fn w_inactive_bytes() -> (r: Vec<u8>)
    ensures
        r@ == w_inactive(),
{
    let a: [u8; 8] = [105u8, 110u8, 97u8, 99u8, 116u8, 105u8, 118u8, 101u8];
    assert(a@ =~= w_inactive());
    vstd::slice::slice_to_vec(a.as_slice())
}

/// The text `failed`.
pub open spec fn w_failed() -> Seq<u8> {
    seq![102u8, 97u8, 105u8, 108u8, 101u8, 100u8]
}

/// The bytes of `failed`.
pub fn w_failed_bytes() -> (r: Vec<u8>)
    ensures
        r@ == w_failed(),
{
    let a: [u8; 6] = [102u8, 97u8, 105u8, 108u8, 101u8, 100u8];
    assert(a@ =~= w_failed());
    vstd::slice::slice_to_vec(a.as_slice())
}

/// The text `CanRestart=yes`.
pub open spec fn w_can_restart_yes() -> Seq<u8> {
    seq![67u8, 97u8, 110u8, 82u8, 101u8, 115u8, 116u8, 97u8, 114u8, 116u8, 61u8, 121u8, 101u8, 115u8]
}

/// The bytes of `CanRestart=yes`.
pub fn w_can_restart_yes_bytes() -> (r: Vec<u8>)
    ensures
        r@ == w_can_restart_yes(),
{
    let a: [u8; 14] = [67u8, 97u8, 110u8, 82u8, 101u8, 115u8, 116u8, 97u8, 114u8, 116u8, 61u8, 121u8, 101u8, 115u8];
    assert(a@ =~= w_can_restart_yes());
    vstd::slice::slice_to_vec(a.as_slice())
}

/// The text `Type=oneshot`.
pub open spec fn w_type_oneshot() -> Seq<u8> {
    seq![84u8, 121u8, 112u8, 101u8, 61u8, 111u8, 110u8, 101u8, 115u8, 104u8, 111u8, 116u8]
}

/// The bytes of `Type=oneshot`.
pub fn w_type_oneshot_bytes() -> (r: Vec<u8>)
    ensures
        r@ == w_type_oneshot(),
{
    let a: [u8; 12] = [84u8, 121u8, 112u8, 101u8, 61u8, 111u8, 110u8, 101u8, 115u8, 104u8, 111u8, 116u8];
    assert(a@ =~= w_type_oneshot());
    vstd::slice::slice_to_vec(a.as_slice())
}

/// The text `RemainAfterExit=yes`.
pub open spec fn w_remain_after_exit_yes() -> Seq<u8> {
    seq![82u8, 101u8, 109u8, 97u8, 105u8, 110u8, 65u8, 102u8, 116u8, 101u8, 114u8, 69u8, 120u8, 105u8, 116u8, 61u8, 121u8, 101u8, 115u8]
}

/// The bytes of `RemainAfterExit=yes`.
pub fn w_remain_after_exit_yes_bytes() -> (r: Vec<u8>)
    ensures
        r@ == w_remain_after_exit_yes(),
{
    let a: [u8; 19] = [82u8, 101u8, 109u8, 97u8, 105u8, 110u8, 65u8, 102u8, 116u8, 101u8, 114u8, 69u8, 120u8, 105u8, 116u8, 61u8, 121u8, 101u8, 115u8];
    assert(a@ =~= w_remain_after_exit_yes());
    vstd::slice::slice_to_vec(a.as_slice())
}

/// The text `--version`.
pub open spec fn w_version_flag() -> Seq<u8> {
    seq![45u8, 45u8, 118u8, 101u8, 114u8, 115u8, 105u8, 111u8, 110u8]
}

/// The bytes of `--version`.
pub fn w_version_flag_bytes() -> (r: Vec<u8>)
    ensures
        r@ == w_version_flag(),
{
    let a: [u8; 9] = [45u8, 45u8, 118u8, 101u8, 114u8, 115u8, 105u8, 111u8, 110u8];
    assert(a@ =~= w_version_flag());
    vstd::slice::slice_to_vec(a.as_slice())
}

/// The text `systemctl`.
pub open spec fn w_systemctl() -> Seq<u8> {
    seq![115u8, 121u8, 115u8, 116u8, 101u8, 109u8, 99u8, 116u8, 108u8]
}

/// The bytes of `systemctl`.
pub fn w_systemctl_bytes() -> (r: Vec<u8>)
    ensures
        r@ == w_systemctl(),
{
    let a: [u8; 9] = [115u8, 121u8, 115u8, 116u8, 101u8, 109u8, 99u8, 116u8, 108u8];
    assert(a@ =~= w_systemctl());
    vstd::slice::slice_to_vec(a.as_slice())
}

/// The text `is-active`.
pub open spec fn w_is_active() -> Seq<u8> {
    seq![105u8, 115u8, 45u8, 97u8, 99u8, 116u8, 105u8, 118u8, 101u8]
}

/// The bytes of `is-active`.
pub fn w_is_active_bytes() -> (r: Vec<u8>)
    ensures
        r@ == w_is_active(),
{
    let a: [u8; 9] = [105u8, 115u8, 45u8, 97u8, 99u8, 116u8, 105u8, 118u8, 101u8];
    assert(a@ =~= w_is_active());
    vstd::slice::slice_to_vec(a.as_slice())
}

/// The text `cat`.
pub open spec fn w_cat() -> Seq<u8> {
    seq![99u8, 97u8, 116u8]
}

/// The bytes of `cat`.
pub fn w_cat_bytes() -> (r: Vec<u8>)
    ensures
        r@ == w_cat(),
{
    let a: [u8; 3] = [99u8, 97u8, 116u8];
    assert(a@ =~= w_cat());
    vstd::slice::slice_to_vec(a.as_slice())
}

/// The text `show`.
pub open spec fn w_show() -> Seq<u8> {
    seq![115u8, 104u8, 111u8, 119u8]
}

/// The bytes of `show`.
pub fn w_show_bytes() -> (r: Vec<u8>)
    ensures
        r@ == w_show(),
{
    let a: [u8; 4] = [115u8, 104u8, 111u8, 119u8];
    assert(a@ =~= w_show());
    vstd::slice::slice_to_vec(a.as_slice())
}

/// The text `--property=CanRestart`.
pub open spec fn w_property_can_restart() -> Seq<u8> {
    seq![45u8, 45u8, 112u8, 114u8, 111u8, 112u8, 101u8, 114u8, 116u8, 121u8, 61u8, 67u8, 97u8, 110u8, 82u8, 101u8, 115u8, 116u8, 97u8, 114u8, 116u8]
}

/// The bytes of `--property=CanRestart`.
pub fn w_property_can_restart_bytes() -> (r: Vec<u8>)
    ensures
        r@ == w_property_can_restart(),
{
    let a: [u8; 21] = [45u8, 45u8, 112u8, 114u8, 111u8, 112u8, 101u8, 114u8, 116u8, 121u8, 61u8, 67u8, 97u8, 110u8, 82u8, 101u8, 115u8, 116u8, 97u8, 114u8, 116u8];
    assert(a@ =~= w_property_can_restart());
    vstd::slice::slice_to_vec(a.as_slice())
}

/// The text `--property=Type`.
pub open spec fn w_property_type() -> Seq<u8> {
    seq![45u8, 45u8, 112u8, 114u8, 111u8, 112u8, 101u8, 114u8, 116u8, 121u8, 61u8, 84u8, 121u8, 112u8, 101u8]
}

/// The bytes of `--property=Type`.
pub fn w_property_type_bytes() -> (r: Vec<u8>)
    ensures
        r@ == w_property_type(),
{
    let a: [u8; 15] = [45u8, 45u8, 112u8, 114u8, 111u8, 112u8, 101u8, 114u8, 116u8, 121u8, 61u8, 84u8, 121u8, 112u8, 101u8];
    assert(a@ =~= w_property_type());
    vstd::slice::slice_to_vec(a.as_slice())
}

/// The text `--property=RemainAfterExit`.
pub open spec fn w_property_remain_after_exit() -> Seq<u8> {
    seq![45u8, 45u8, 112u8, 114u8, 111u8, 112u8, 101u8, 114u8, 116u8, 121u8, 61u8, 82u8, 101u8, 109u8, 97u8, 105u8, 110u8, 65u8, 102u8, 116u8, 101u8, 114u8, 69u8, 120u8, 105u8, 116u8]
}

/// The bytes of `--property=RemainAfterExit`.
pub fn w_property_remain_after_exit_bytes() -> (r: Vec<u8>)
    ensures
        r@ == w_property_remain_after_exit(),
{
    let a: [u8; 26] = [45u8, 45u8, 112u8, 114u8, 111u8, 112u8, 101u8, 114u8, 116u8, 121u8, 61u8, 82u8, 101u8, 109u8, 97u8, 105u8, 110u8, 65u8, 102u8, 116u8, 101u8, 114u8, 69u8, 120u8, 105u8, 116u8];
    assert(a@ =~= w_property_remain_after_exit());
    vstd::slice::slice_to_vec(a.as_slice())
}

/// The text `restart`.
pub open spec fn w_restart() -> Seq<u8> {
    seq![114u8, 101u8, 115u8, 116u8, 97u8, 114u8, 116u8]
}

/// The bytes of `restart`.
pub fn w_restart_bytes() -> (r: Vec<u8>)
    ensures
        r@ == w_restart(),
{
    let a: [u8; 7] = [114u8, 101u8, 115u8, 116u8, 97u8, 114u8, 116u8];
    assert(a@ =~= w_restart());
    vstd::slice::slice_to_vec(a.as_slice())
}

/// The text `start`.
pub open spec fn w_start() -> Seq<u8> {
    seq![115u8, 116u8, 97u8, 114u8, 116u8]
}

/// The bytes of `start`.
pub fn w_start_bytes() -> (r: Vec<u8>)
    ensures
        r@ == w_start(),
{
    let a: [u8; 5] = [115u8, 116u8, 97u8, 114u8, 116u8];
    assert(a@ =~= w_start());
    vstd::slice::slice_to_vec(a.as_slice())
}

/// The text `stop`.
pub open spec fn w_stop() -> Seq<u8> {
    seq![115u8, 116u8, 111u8, 112u8]
}

/// The bytes of `stop`.
pub fn w_stop_bytes() -> (r: Vec<u8>)
    ensures
        r@ == w_stop(),
{
    let a: [u8; 4] = [115u8, 116u8, 111u8, 112u8];
    assert(a@ =~= w_stop());
    vstd::slice::slice_to_vec(a.as_slice())
}

/// The text `docker-compose.yml`.
pub open spec fn w_docker_compose_yml() -> Seq<u8> {
    seq![100u8, 111u8, 99u8, 107u8, 101u8, 114u8, 45u8, 99u8, 111u8, 109u8, 112u8, 111u8, 115u8, 101u8, 46u8, 121u8, 109u8, 108u8]
}

/// The bytes of `docker-compose.yml`.
pub fn w_docker_compose_yml_bytes() -> (r: Vec<u8>)
    ensures
        r@ == w_docker_compose_yml(),
{
    let a: [u8; 18] = [100u8, 111u8, 99u8, 107u8, 101u8, 114u8, 45u8, 99u8, 111u8, 109u8, 112u8, 111u8, 115u8, 101u8, 46u8, 121u8, 109u8, 108u8];
    assert(a@ =~= w_docker_compose_yml());
    vstd::slice::slice_to_vec(a.as_slice())
}

/// The text `docker-compose.yaml`.
pub open spec fn w_docker_compose_yaml() -> Seq<u8> {
    seq![100u8, 111u8, 99u8, 107u8, 101u8, 114u8, 45u8, 99u8, 111u8, 109u8, 112u8, 111u8, 115u8, 101u8, 46u8, 121u8, 97u8, 109u8, 108u8]
}

/// The bytes of `docker-compose.yaml`.
pub fn w_docker_compose_yaml_bytes() -> (r: Vec<u8>)
    ensures
        r@ == w_docker_compose_yaml(),
{
    let a: [u8; 19] = [100u8, 111u8, 99u8, 107u8, 101u8, 114u8, 45u8, 99u8, 111u8, 109u8, 112u8, 111u8, 115u8, 101u8, 46u8, 121u8, 97u8, 109u8, 108u8];
    assert(a@ =~= w_docker_compose_yaml());
    vstd::slice::slice_to_vec(a.as_slice())
}

/// The text `compose.yml`.
pub open spec fn w_compose_yml() -> Seq<u8> {
    seq![99u8, 111u8, 109u8, 112u8, 111u8, 115u8, 101u8, 46u8, 121u8, 109u8, 108u8]
}

/// The bytes of `compose.yml`.
pub fn w_compose_yml_bytes() -> (r: Vec<u8>)
    ensures
        r@ == w_compose_yml(),
{
    let a: [u8; 11] = [99u8, 111u8, 109u8, 112u8, 111u8, 115u8, 101u8, 46u8, 121u8, 109u8, 108u8];
    assert(a@ =~= w_compose_yml());
    vstd::slice::slice_to_vec(a.as_slice())
}

/// The text `compose.yaml`.
pub open spec fn w_compose_yaml() -> Seq<u8> {
    seq![99u8, 111u8, 109u8, 112u8, 111u8, 115u8, 101u8, 46u8, 121u8, 97u8, 109u8, 108u8]
}

/// The bytes of `compose.yaml`.
pub fn w_compose_yaml_bytes() -> (r: Vec<u8>)
    ensures
        r@ == w_compose_yaml(),
{
    let a: [u8; 12] = [99u8, 111u8, 109u8, 112u8, 111u8, 115u8, 101u8, 46u8, 121u8, 97u8, 109u8, 108u8];
    assert(a@ =~= w_compose_yaml());
    vstd::slice::slice_to_vec(a.as_slice())
}

/// The text `container-compose.yml`.
pub open spec fn w_container_compose_yml() -> Seq<u8> {
    seq![99u8, 111u8, 110u8, 116u8, 97u8, 105u8, 110u8, 101u8, 114u8, 45u8, 99u8, 111u8, 109u8, 112u8, 111u8, 115u8, 101u8, 46u8, 121u8, 109u8, 108u8]
}

/// The bytes of `container-compose.yml`.
pub fn w_container_compose_yml_bytes() -> (r: Vec<u8>)
    ensures
        r@ == w_container_compose_yml(),
{
    let a: [u8; 21] = [99u8, 111u8, 110u8, 116u8, 97u8, 105u8, 110u8, 101u8, 114u8, 45u8, 99u8, 111u8, 109u8, 112u8, 111u8, 115u8, 101u8, 46u8, 121u8, 109u8, 108u8];
    assert(a@ =~= w_container_compose_yml());
    vstd::slice::slice_to_vec(a.as_slice())
}

/// The text `container-compose.yaml`.
pub open spec fn w_container_compose_yaml() -> Seq<u8> {
    seq![99u8, 111u8, 110u8, 116u8, 97u8, 105u8, 110u8, 101u8, 114u8, 45u8, 99u8, 111u8, 109u8, 112u8, 111u8, 115u8, 101u8, 46u8, 121u8, 97u8, 109u8, 108u8]
}

/// The bytes of `container-compose.yaml`.
pub fn w_container_compose_yaml_bytes() -> (r: Vec<u8>)
    ensures
        r@ == w_container_compose_yaml(),
{
    let a: [u8; 22] = [99u8, 111u8, 110u8, 116u8, 97u8, 105u8, 110u8, 101u8, 114u8, 45u8, 99u8, 111u8, 109u8, 112u8, 111u8, 115u8, 101u8, 46u8, 121u8, 97u8, 109u8, 108u8];
    assert(a@ =~= w_container_compose_yaml());
    vstd::slice::slice_to_vec(a.as_slice())
}

/// The text `docker`.
pub open spec fn w_docker() -> Seq<u8> {
    seq![100u8, 111u8, 99u8, 107u8, 101u8, 114u8]
}

/// The bytes of `docker`.
pub fn w_docker_bytes() -> (r: Vec<u8>)
    ensures
        r@ == w_docker(),
{
    let a: [u8; 6] = [100u8, 111u8, 99u8, 107u8, 101u8, 114u8];
    assert(a@ =~= w_docker());
    vstd::slice::slice_to_vec(a.as_slice())
}

/// The text `docker-compose`.
pub open spec fn w_docker_compose() -> Seq<u8> {
    seq![100u8, 111u8, 99u8, 107u8, 101u8, 114u8, 45u8, 99u8, 111u8, 109u8, 112u8, 111u8, 115u8, 101u8]
}

/// The bytes of `docker-compose`.
pub fn w_docker_compose_bytes() -> (r: Vec<u8>)
    ensures
        r@ == w_docker_compose(),
{
    let a: [u8; 14] = [100u8, 111u8, 99u8, 107u8, 101u8, 114u8, 45u8, 99u8, 111u8, 109u8, 112u8, 111u8, 115u8, 101u8];
    assert(a@ =~= w_docker_compose());
    vstd::slice::slice_to_vec(a.as_slice())
}

/// The text `compose`.
pub open spec fn w_compose() -> Seq<u8> {
    seq![99u8, 111u8, 109u8, 112u8, 111u8, 115u8, 101u8]
}

/// The bytes of `compose`.
pub fn w_compose_bytes() -> (r: Vec<u8>)
    ensures
        r@ == w_compose(),
{
    let a: [u8; 7] = [99u8, 111u8, 109u8, 112u8, 111u8, 115u8, 101u8];
    assert(a@ =~= w_compose());
    vstd::slice::slice_to_vec(a.as_slice())
}

/// The text `-f`.
pub open spec fn w_file_flag() -> Seq<u8> {
    seq![45u8, 102u8]
}

/// The bytes of `-f`.
pub fn w_file_flag_bytes() -> (r: Vec<u8>)
    ensures
        r@ == w_file_flag(),
{
    let a: [u8; 2] = [45u8, 102u8];
    assert(a@ =~= w_file_flag());
    vstd::slice::slice_to_vec(a.as_slice())
}

/// The text `down`.
pub open spec fn w_down() -> Seq<u8> {
    seq![100u8, 111u8, 119u8, 110u8]
}

/// The bytes of `down`.
pub fn w_down_bytes() -> (r: Vec<u8>)
    ensures
        r@ == w_down(),
{
    let a: [u8; 4] = [100u8, 111u8, 119u8, 110u8];
    assert(a@ =~= w_down());
    vstd::slice::slice_to_vec(a.as_slice())
}

/// The text `up`.
pub open spec fn w_up() -> Seq<u8> {
    seq![117u8, 112u8]
}

/// The bytes of `up`.
pub fn w_up_bytes() -> (r: Vec<u8>)
    ensures
        r@ == w_up(),
{
    let a: [u8; 2] = [117u8, 112u8];
    assert(a@ =~= w_up());
    vstd::slice::slice_to_vec(a.as_slice())
}

/// The text `-d`.
pub open spec fn w_detached_flag() -> Seq<u8> {
    seq![45u8, 100u8]
}

/// The bytes of `-d`.
pub fn w_detached_flag_bytes() -> (r: Vec<u8>)
    ensures
        r@ == w_detached_flag(),
{
    let a: [u8; 2] = [45u8, 100u8];
    assert(a@ =~= w_detached_flag());
    vstd::slice::slice_to_vec(a.as_slice())
}

/// The text `history`.
pub open spec fn w_history() -> Seq<u8> {
    seq![104u8, 105u8, 115u8, 116u8, 111u8, 114u8, 121u8]
}

/// The bytes of `history`.
pub fn w_history_bytes() -> (r: Vec<u8>)
    ensures
        r@ == w_history(),
{
    let a: [u8; 7] = [104u8, 105u8, 115u8, 116u8, 111u8, 114u8, 121u8];
    assert(a@ =~= w_history());
    vstd::slice::slice_to_vec(a.as_slice())
}

/// The text `clear`.
pub open spec fn w_clear() -> Seq<u8> {
    seq![99u8, 108u8, 101u8, 97u8, 114u8]
}

/// The bytes of `clear`.
pub fn w_clear_bytes() -> (r: Vec<u8>)
    ensures
        r@ == w_clear(),
{
    let a: [u8; 5] = [99u8, 108u8, 101u8, 97u8, 114u8];
    assert(a@ =~= w_clear());
    vstd::slice::slice_to_vec(a.as_slice())
}

/// The text `-n`.
pub open spec fn w_count_flag() -> Seq<u8> {
    seq![45u8, 110u8]
}

/// The bytes of `-n`.
pub fn w_count_flag_bytes() -> (r: Vec<u8>)
    ensures
        r@ == w_count_flag(),
{
    let a: [u8; 2] = [45u8, 110u8];
    assert(a@ =~= w_count_flag());
    vstd::slice::slice_to_vec(a.as_slice())
}

/// The text `-f`.
pub open spec fn w_follow_short() -> Seq<u8> {
    seq![45u8, 102u8]
}

/// The bytes of `-f`.
pub fn w_follow_short_bytes() -> (r: Vec<u8>)
    ensures
        r@ == w_follow_short(),
{
    let a: [u8; 2] = [45u8, 102u8];
    assert(a@ =~= w_follow_short());
    vstd::slice::slice_to_vec(a.as_slice())
}

/// The text `--follow`.
pub open spec fn w_follow_long() -> Seq<u8> {
    seq![45u8, 45u8, 102u8, 111u8, 108u8, 108u8, 111u8, 119u8]
}

/// The bytes of `--follow`.
pub fn w_follow_long_bytes() -> (r: Vec<u8>)
    ensures
        r@ == w_follow_long(),
{
    let a: [u8; 8] = [45u8, 45u8, 102u8, 111u8, 108u8, 108u8, 111u8, 119u8];
    assert(a@ =~= w_follow_long());
    vstd::slice::slice_to_vec(a.as_slice())
}

/// The text `-s`.
pub open spec fn w_stop_start_short() -> Seq<u8> {
    seq![45u8, 115u8]
}

/// The bytes of `-s`.
pub fn w_stop_start_short_bytes() -> (r: Vec<u8>)
    ensures
        r@ == w_stop_start_short(),
{
    let a: [u8; 2] = [45u8, 115u8];
    assert(a@ =~= w_stop_start_short());
    vstd::slice::slice_to_vec(a.as_slice())
}

/// The text `--stop-start`.
pub open spec fn w_stop_start_long() -> Seq<u8> {
    seq![45u8, 45u8, 115u8, 116u8, 111u8, 112u8, 45u8, 115u8, 116u8, 97u8, 114u8, 116u8]
}

/// The bytes of `--stop-start`.
pub fn w_stop_start_long_bytes() -> (r: Vec<u8>)
    ensures
        r@ == w_stop_start_long(),
{
    let a: [u8; 12] = [45u8, 45u8, 115u8, 116u8, 111u8, 112u8, 45u8, 115u8, 116u8, 97u8, 114u8, 116u8];
    assert(a@ =~= w_stop_start_long());
    vstd::slice::slice_to_vec(a.as_slice())
}

/// The text `-h`.
pub open spec fn w_help_short() -> Seq<u8> {
    seq![45u8, 104u8]
}

/// The bytes of `-h`.
pub fn w_help_short_bytes() -> (r: Vec<u8>)
    ensures
        r@ == w_help_short(),
{
    let a: [u8; 2] = [45u8, 104u8];
    assert(a@ =~= w_help_short());
    vstd::slice::slice_to_vec(a.as_slice())
}

/// The text `--help`.
pub open spec fn w_help_long() -> Seq<u8> {
    seq![45u8, 45u8, 104u8, 101u8, 108u8, 112u8]
}

/// The bytes of `--help`.
pub fn w_help_long_bytes() -> (r: Vec<u8>)
    ensures
        r@ == w_help_long(),
{
    let a: [u8; 6] = [45u8, 45u8, 104u8, 101u8, 108u8, 112u8];
    assert(a@ =~= w_help_long());
    vstd::slice::slice_to_vec(a.as_slice())
}

/// The text `-v`.
pub open spec fn w_version_short() -> Seq<u8> {
    seq![45u8, 118u8]
}

/// The bytes of `-v`.
pub fn w_version_short_bytes() -> (r: Vec<u8>)
    ensures
        r@ == w_version_short(),
{
    let a: [u8; 2] = [45u8, 118u8];
    assert(a@ =~= w_version_short());
    vstd::slice::slice_to_vec(a.as_slice())
}

/// The text ` | `.
pub open spec fn w_field_sep() -> Seq<u8> {
    seq![32u8, 124u8, 32u8]
}

/// The bytes of ` | `.
pub fn w_field_sep_bytes() -> (r: Vec<u8>)
    ensures
        r@ == w_field_sep(),
{
    let a: [u8; 3] = [32u8, 124u8, 32u8];
    assert(a@ =~= w_field_sep());
    vstd::slice::slice_to_vec(a.as_slice())
}

/// The text `SUCCESS`.
pub open spec fn w_success_token() -> Seq<u8> {
    seq![83u8, 85u8, 67u8, 67u8, 69u8, 83u8, 83u8]
}

/// The bytes of `SUCCESS`.
pub fn w_success_token_bytes() -> (r: Vec<u8>)
    ensures
        r@ == w_success_token(),
{
    let a: [u8; 7] = [83u8, 85u8, 67u8, 67u8, 69u8, 83u8, 83u8];
    assert(a@ =~= w_success_token());
    vstd::slice::slice_to_vec(a.as_slice())
}

/// The text `FAILED`.
pub open spec fn w_failed_token() -> Seq<u8> {
    seq![70u8, 65u8, 73u8, 76u8, 69u8, 68u8]
}

/// The bytes of `FAILED`.
pub fn w_failed_token_bytes() -> (r: Vec<u8>)
    ensures
        r@ == w_failed_token(),
{
    let a: [u8; 6] = [70u8, 65u8, 73u8, 76u8, 69u8, 68u8];
    assert(a@ =~= w_failed_token());
    vstd::slice::slice_to_vec(a.as_slice())
}

/// The text `tickle`.
pub open spec fn w_tickle() -> Seq<u8> {
    seq![116u8, 105u8, 99u8, 107u8, 108u8, 101u8]
}

/// The bytes of `tickle`.
pub fn w_tickle_bytes() -> (r: Vec<u8>)
    ensures
        r@ == w_tickle(),
{
    let a: [u8; 6] = [116u8, 105u8, 99u8, 107u8, 108u8, 101u8];
    assert(a@ =~= w_tickle());
    vstd::slice::slice_to_vec(a.as_slice())
}

} // verus!
