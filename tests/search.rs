use mimir2::search::{Query, SearchDocuments, SearchDocumentsParameters, SearchError, UseCaseError};

struct Fixed(Vec<u32>);

impl Query for Fixed {
    type Doc = u32;
    type Parameters = u32;

    fn search_documents(&self, parameters: u32) -> Result<Vec<u32>, String> {
        if parameters == 0 {
            Err(String::from("empty query"))
        } else {
            Ok(self.0.iter().copied().filter(|d| d % parameters == 0).collect())
        }
    }
}

#[test]
fn search_through_query() {
    let uc = SearchDocuments::new(Fixed(vec![1, 2, 3, 4]));
    assert_eq!(uc.search_documents(2).unwrap(), vec![2, 4]);
    assert_eq!(uc.execute(SearchDocumentsParameters { parameters: 3 }).unwrap(), vec![3]);
}

#[test]
fn search_errors() {
    let uc = SearchDocuments::new(Fixed(vec![]));
    assert!(matches!(
        uc.search_documents(0),
        Err(SearchError::DocumentRetrievalError { details }) if details == "empty query"
    ));
    assert!(matches!(
        uc.execute(SearchDocumentsParameters { parameters: 0 }),
        Err(UseCaseError::Execution { details }) if details == "empty query"
    ));
}
