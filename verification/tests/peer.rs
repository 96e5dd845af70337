use rustdesk_ab::models::peer::DeletePeersRequest;

#[test]
fn bare_array_ids() {
    let req = DeletePeersRequest::Ids(vec!["1".to_string(), "2".to_string()]);
    assert_eq!(req.into_ids(), vec!["1".to_string(), "2".to_string()]);
}

#[test]
fn object_ids_with_single_id() {
    let req = DeletePeersRequest::Object { ids: vec!["1".to_string()], id: Some("9".to_string()) };
    assert_eq!(req.into_ids(), vec!["1".to_string(), "9".to_string()]);
    let req = DeletePeersRequest::Object { ids: vec![], id: None };
    assert!(req.into_ids().is_empty());
    let req = DeletePeersRequest::Object { ids: vec![], id: Some("3".to_string()) };
    assert_eq!(req.into_ids(), vec!["3".to_string()]);
}
